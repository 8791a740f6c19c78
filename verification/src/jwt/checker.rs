//! Verification of intent tokens: header algorithm against the configured key,
//! then the time window, the hard TTL, the intent binding and the permissions.
//!
//! Turning the claims into values is done by `jsonwebtoken::decode` with the
//! `DecodeRequest` that `prepare_decode` builds; `finish_verify` takes its outcome,
//! checks the token's signature under the verifier's own key itself, and applies the
//! checks of this module.

use std::sync::Arc;

use jsonwebtoken::errors::Error as DecodeError;
use jsonwebtoken::{Algorithm, DecodingKey, Validation};
use vstd::prelude::*;
use vstd::string::to_string_from_display_ensures;

use crate::jwt::claims::Claims;
use crate::sandbox::unix_now;

verus! {

/// `jsonwebtoken::errors::Error`, carried through opaque: nothing inside it is read.
#[verifier::external_type_specification]
#[verifier::external_body]
pub struct ExDecodeError(jsonwebtoken::errors::Error);

/// `jsonwebtoken::DecodingKey`, opaque: only the outcome of parsing an RSA key is used.
#[verifier::external_type_specification]
#[verifier::external_body]
pub struct ExDecodingKey(jsonwebtoken::DecodingKey);

/// `jsonwebtoken::Algorithm`, opaque; `algorithm_from_header` converts it to `JwtAlgorithm`.
#[verifier::external_type_specification]
#[verifier::external_body]
pub struct ExAlgorithm(jsonwebtoken::Algorithm);

/// No token may be valid for longer than this many seconds (`exp - iat`).
pub const HARD_TTL_SECONDS: i64 = 60;

/// A clock that the verifier reads the current Unix time (seconds) from.
pub trait TimeSource: Send + Sync {
    /// Whether `t` is a reading this clock may give: what a clock promises of its time.
    /// By default it promises nothing.
    open spec fn spec_reads(&self, t: i64) -> bool {
        true
    }

    /// The current Unix time in seconds.
    fn now(&self) -> (t: i64)
        ensures
            self.spec_reads(t),
    ;
}

/// The system clock.
#[derive(Debug, Default)]
pub struct SystemTimeSource;

impl TimeSource for SystemTimeSource {
    /// The system clock may read any time: nothing is known of it in advance.
    open spec fn spec_reads(&self, t: i64) -> bool {
        true
    }

    fn now(&self) -> (t: i64) {
        unix_now()
    }
}

/// The signature algorithms a token header can name.
#[derive(Debug, Clone, Copy, PartialEq, Eq, Structural)]
pub enum JwtAlgorithm {
    HS256,
    HS384,
    HS512,
    ES256,
    ES384,
    RS256,
    RS384,
    RS512,
    PS256,
    PS384,
    PS512,
    EdDSA,
}

/// The name of an algorithm, as its `Debug` form prints it.
pub open spec fn algorithm_name(a: JwtAlgorithm) -> Seq<char> {
    match a {
        JwtAlgorithm::HS256 => "HS256"@,
        JwtAlgorithm::HS384 => "HS384"@,
        JwtAlgorithm::HS512 => "HS512"@,
        JwtAlgorithm::ES256 => "ES256"@,
        JwtAlgorithm::ES384 => "ES384"@,
        JwtAlgorithm::RS256 => "RS256"@,
        JwtAlgorithm::RS384 => "RS384"@,
        JwtAlgorithm::RS512 => "RS512"@,
        JwtAlgorithm::PS256 => "PS256"@,
        JwtAlgorithm::PS384 => "PS384"@,
        JwtAlgorithm::PS512 => "PS512"@,
        JwtAlgorithm::EdDSA => "EdDSA"@,
    }
}

impl JwtAlgorithm {
    /// The algorithm's name.
    pub fn name(&self) -> (s: &'static str)
        ensures
            s@ == algorithm_name(*self),
    {
        match self {
            JwtAlgorithm::HS256 => "HS256",
            JwtAlgorithm::HS384 => "HS384",
            JwtAlgorithm::HS512 => "HS512",
            JwtAlgorithm::ES256 => "ES256",
            JwtAlgorithm::ES384 => "ES384",
            JwtAlgorithm::RS256 => "RS256",
            JwtAlgorithm::RS384 => "RS384",
            JwtAlgorithm::RS512 => "RS512",
            JwtAlgorithm::PS256 => "PS256",
            JwtAlgorithm::PS384 => "PS384",
            JwtAlgorithm::PS512 => "PS512",
            JwtAlgorithm::EdDSA => "EdDSA",
        }
    }
}

/// Converts the algorithm of a decoded header, variant for variant.
#[verifier::external_body]
fn algorithm_from_header(alg: Algorithm) -> JwtAlgorithm {
    match alg {
        Algorithm::HS256 => JwtAlgorithm::HS256,
        Algorithm::HS384 => JwtAlgorithm::HS384,
        Algorithm::HS512 => JwtAlgorithm::HS512,
        Algorithm::ES256 => JwtAlgorithm::ES256,
        Algorithm::ES384 => JwtAlgorithm::ES384,
        Algorithm::RS256 => JwtAlgorithm::RS256,
        Algorithm::RS384 => JwtAlgorithm::RS384,
        Algorithm::RS512 => JwtAlgorithm::RS512,
        Algorithm::PS256 => JwtAlgorithm::PS256,
        Algorithm::PS384 => JwtAlgorithm::PS384,
        Algorithm::PS512 => JwtAlgorithm::PS512,
        Algorithm::EdDSA => JwtAlgorithm::EdDSA,
    }
}

/// The `alg` that `jsonwebtoken::decode_header` reads from a token's header, or `None`
/// where it rejects the token (not three dot-separated parts, bad base64 or JSON).
pub uninterp spec fn header_algorithm_of(token: Seq<char>) -> Option<JwtAlgorithm>;

/// Whether `jsonwebtoken::DecodingKey::from_rsa_pem` accepts these bytes as an RSA public key.
pub uninterp spec fn rsa_pem_accepted(pem: Seq<u8>) -> bool;

/// Calls `jsonwebtoken::decode_header` and keeps the header's algorithm. The contract
/// claims that the outcome is a function of the token alone (named `header_algorithm_of`).
#[verifier::external_body]
fn decode_header_algorithm(token: &str) -> (r: Result<JwtAlgorithm, DecodeError>)
    ensures
        header_algorithm_of(token@) == (match r {
            Ok(a) => Some(a),
            Err(_) => None::<JwtAlgorithm>,
        }),
{
    match jsonwebtoken::decode_header(token) {
        Ok(header) => Ok(algorithm_from_header(header.alg)),
        Err(e) => Err(e),
    }
}

/// Calls `jsonwebtoken::DecodingKey::from_rsa_pem`. The contract claims only that
/// whether it succeeds is a function of the bytes (named `rsa_pem_accepted`).
#[verifier::external_body]
fn decoding_key_from_rsa_pem(pem: &[u8]) -> (r: Result<DecodingKey, DecodeError>)
    ensures
        r is Ok == rsa_pem_accepted(pem@),
{
    DecodingKey::from_rsa_pem(pem)
}

/// Converts an algorithm to the one `jsonwebtoken` names, variant for variant.
#[verifier::external_body]
fn to_decode_algorithm(alg: JwtAlgorithm) -> Algorithm {
    match alg {
        JwtAlgorithm::HS256 => Algorithm::HS256,
        JwtAlgorithm::HS384 => Algorithm::HS384,
        JwtAlgorithm::HS512 => Algorithm::HS512,
        JwtAlgorithm::ES256 => Algorithm::ES256,
        JwtAlgorithm::ES384 => Algorithm::ES384,
        JwtAlgorithm::RS256 => Algorithm::RS256,
        JwtAlgorithm::RS384 => Algorithm::RS384,
        JwtAlgorithm::RS512 => Algorithm::RS512,
        JwtAlgorithm::PS256 => Algorithm::PS256,
        JwtAlgorithm::PS384 => Algorithm::PS384,
        JwtAlgorithm::PS512 => Algorithm::PS512,
        JwtAlgorithm::EdDSA => Algorithm::EdDSA,
    }
}

/// Whether `jsonwebtoken::decode` accepts a token (header algorithm, signature, claims
/// JSON, required claims) under `Validation::new(algorithm)` with the given required
/// claims and no `exp` check, with the key `DecodingKey::from_secret(secret)`.
pub uninterp spec fn hmac_decode_accepts(
    token: Seq<char>,
    algorithm: JwtAlgorithm,
    secret: Seq<u8>,
    required: Seq<Seq<char>>,
) -> bool;

/// The same, with the key `DecodingKey::from_rsa_pem(pem)` (false where the key does not
/// parse).
pub uninterp spec fn rsa_decode_accepts(
    token: Seq<char>,
    algorithm: JwtAlgorithm,
    pem: Seq<u8>,
    required: Seq<Seq<char>>,
) -> bool;

/// Calls `jsonwebtoken::decode` with an HMAC key made from `secret`, discarding the
/// claims. It is called with `exp` unchecked, when nothing in it reads the clock: the
/// contract claims that whether it succeeds is a function of its arguments (named
/// `hmac_decode_accepts`).
#[verifier::external_body]
fn decode_with_secret(
    token: &str,
    algorithm: JwtAlgorithm,
    secret: &[u8],
    required: &Vec<String>,
    check_exp: bool,
) -> (r: Result<(), DecodeError>)
    requires
        !check_exp,
    ensures
        r is Ok == hmac_decode_accepts(token@, algorithm, secret@, required@.map_values(|s: String| s@)),
{
    let mut validation = Validation::new(to_decode_algorithm(algorithm));
    validation.validate_exp = check_exp;
    validation.required_spec_claims = required.iter().cloned().collect();
    let key = DecodingKey::from_secret(secret);
    jsonwebtoken::decode::<serde::de::IgnoredAny>(token, &key, &validation).map(|_| ())
}

/// Calls `jsonwebtoken::decode` with an RSA public key parsed from `pem`, discarding the
/// claims; a key that does not parse is that failure. The contract claims that whether
/// it succeeds is a function of its arguments (named `rsa_decode_accepts`).
#[verifier::external_body]
fn decode_with_rsa_pem(
    token: &str,
    algorithm: JwtAlgorithm,
    pem: &[u8],
    required: &Vec<String>,
    check_exp: bool,
) -> (r: Result<(), DecodeError>)
    requires
        !check_exp,
    ensures
        r is Ok == rsa_decode_accepts(token@, algorithm, pem@, required@.map_values(|s: String| s@)),
{
    let key = decoding_key_from_rsa_pem(pem)?;
    let mut validation = Validation::new(to_decode_algorithm(algorithm));
    validation.validate_exp = check_exp;
    validation.required_spec_claims = required.iter().cloned().collect();
    jsonwebtoken::decode::<serde::de::IgnoredAny>(token, &key, &validation).map(|_| ())
}

/// Whether a token's signature checks out under a key: `jsonwebtoken::decode` accepts
/// it with the key's algorithm and bytes, the required claims `exp`, `iat` and `sub`, and
/// no `exp` check.
pub open spec fn signed_for_key(key: JwtKeySource, token: Seq<char>) -> bool {
    match key {
        JwtKeySource::Hs256 { secret } => hmac_decode_accepts(
            token,
            JwtAlgorithm::HS256,
            secret@,
            required_claim_names(),
        ),
        JwtKeySource::Rs256 { public_key_pem } => rsa_decode_accepts(
            token,
            JwtAlgorithm::RS256,
            public_key_pem@,
            required_claim_names(),
        ),
    }
}

/// Where the verification key comes from.
pub enum JwtKeySource {
    Hs256 { secret: Arc<[u8]> },
    Rs256 { public_key_pem: Arc<[u8]> },
}

/// Calls `Arc::clone`, which makes another pointer to the same allocation: the contract
/// claims the copy holds the same value.
#[verifier::external_body]
fn share<T: ?Sized>(a: &Arc<T>) -> (r: Arc<T>)
    ensures
        r == *a,
{
    Arc::clone(a)
}

impl Clone for JwtKeySource {
    /// The same key, sharing its bytes.
    fn clone(&self) -> (k: Self)
        ensures
            k == *self,
    {
        match self {
            JwtKeySource::Hs256 { secret } => JwtKeySource::Hs256 { secret: share(secret) },
            JwtKeySource::Rs256 { public_key_pem } => JwtKeySource::Rs256 {
                public_key_pem: share(public_key_pem),
            },
        }
    }
}

impl JwtKeySource {
    /// The one algorithm that tokens checked with this key must name.
    pub open spec fn spec_algorithm(self) -> JwtAlgorithm {
        match self {
            JwtKeySource::Hs256 { .. } => JwtAlgorithm::HS256,
            JwtKeySource::Rs256 { .. } => JwtAlgorithm::RS256,
        }
    }

    /// The one algorithm that tokens checked with this key must name.
    pub fn algorithm(&self) -> (a: JwtAlgorithm)
        ensures
            a == self.spec_algorithm(),
    {
        match self {
            JwtKeySource::Hs256 { .. } => JwtAlgorithm::HS256,
            JwtKeySource::Rs256 { .. } => JwtAlgorithm::RS256,
        }
    }

    /// The variant's name without its key material, which is never printed.
    pub fn kind_name(&self) -> (s: &'static str)
        ensures
            s@ == (match self {
                JwtKeySource::Hs256 { .. } => "Hs256"@,
                JwtKeySource::Rs256 { .. } => "Rs256"@,
            }),
    {
        match self {
            JwtKeySource::Hs256 { .. } => "Hs256",
            JwtKeySource::Rs256 { .. } => "Rs256",
        }
    }
}

/// Why a token was refused.
#[derive(Debug)]
pub enum JwtError {
    InvalidToken(DecodeError),
    InvalidKey(DecodeError),
    AlgorithmMismatch { expected: JwtAlgorithm, actual: JwtAlgorithm },
    Expired,
    IssuedInFuture,
    TtlExceeded,
    IntentHashMismatch,
    MissingPermissions,
}

impl JwtError {
    /// The error's message, as the error is displayed to callers.
    pub fn message(&self) -> (s: String)
        ensures
            jwt_message_fits(*self, s@),
    {
        match self {
            JwtError::InvalidToken(e) => {
                let mut s = String::from_str("token decoding failed: ");
                let detail = e.to_string();
                s.append(detail.as_str());
                assert(s@ == "token decoding failed: "@ + detail@);
                s
            },
            JwtError::InvalidKey(e) => {
                let mut s = String::from_str("configured verification key is invalid: ");
                let detail = e.to_string();
                s.append(detail.as_str());
                assert(s@ == "configured verification key is invalid: "@ + detail@);
                s
            },
            JwtError::AlgorithmMismatch { expected, actual } => {
                let mut s = String::from_str("token algorithm mismatch: expected ");
                s.append(expected.name());
                s.append(", got ");
                s.append(actual.name());
                s
            },
            JwtError::Expired => String::from_str("token is expired"),
            JwtError::IssuedInFuture => String::from_str("token issued in the future"),
            JwtError::TtlExceeded => String::from_str("token exceeded the 60 second ttl"),
            JwtError::IntentHashMismatch => String::from_str(
                "intent_hash claim does not match request intent",
            ),
            JwtError::MissingPermissions => String::from_str("token has no permissions claim"),
        }
    }
}

/// Whether `prepare_decode` accepts a token for a key: its header names the key's
/// algorithm, and an RSA key parses.
pub open spec fn decode_admissible(key: JwtKeySource, token: Seq<char>) -> bool {
    &&& header_algorithm_of(token) == Some(key.spec_algorithm())
    &&& (key matches JwtKeySource::Rs256 { public_key_pem } ==> rsa_pem_accepted(public_key_pem@))
}

/// Whether `m` is the message of `e`: fixed text for each refusal, and for a decoding or
/// key failure a fixed prefix followed by the underlying error's text as its `Display`
/// gives it.
pub open spec fn jwt_message_fits(e: JwtError, m: Seq<char>) -> bool {
    match e {
        JwtError::InvalidToken(e) => exists|t: String|
            to_string_from_display_ensures::<DecodeError>(&e, t) && m == "token decoding failed: "@
                + t@,
        JwtError::InvalidKey(e) => exists|t: String|
            to_string_from_display_ensures::<DecodeError>(&e, t) && m
                == "configured verification key is invalid: "@ + t@,
        JwtError::AlgorithmMismatch { expected, actual } => m == "token algorithm mismatch: expected "@
            + algorithm_name(expected) + ", got "@ + algorithm_name(actual),
        JwtError::Expired => m == "token is expired"@,
        JwtError::IssuedInFuture => m == "token issued in the future"@,
        JwtError::TtlExceeded => m == "token exceeded the 60 second ttl"@,
        JwtError::IntentHashMismatch => m == "intent_hash claim does not match request intent"@,
        JwtError::MissingPermissions => m == "token has no permissions claim"@,
    }
}

/// What `jsonwebtoken::decode` must be called with for a token: the expected algorithm,
/// the key material (the HMAC secret for HS256, to be used through
/// `DecodingKey::from_secret`; the RSA public key in PEM for RS256, through
/// `DecodingKey::from_rsa_pem`), the registered claims that must be present, and whether
/// it checks `exp` itself (it never does: the time window is checked by `check_claims`).
pub struct DecodeRequest {
    pub algorithm: JwtAlgorithm,
    pub key_material: Vec<u8>,
    pub required_claims: Vec<String>,
    pub validate_exp: bool,
}

/// The bytes of a key source: the HMAC secret, or the RSA public key in PEM.
pub open spec fn key_material_of(key: JwtKeySource) -> Seq<u8> {
    match key {
        JwtKeySource::Hs256 { secret } => secret@,
        JwtKeySource::Rs256 { public_key_pem } => public_key_pem@,
    }
}

/// Whether a decode request is the one for a key: the key's algorithm and bytes, the
/// required claims `exp`, `iat` and `sub`, and no `exp` check by the decoder.
pub open spec fn decode_request_for(req: DecodeRequest, key: JwtKeySource) -> bool {
    &&& req.algorithm == key.spec_algorithm()
    &&& req.key_material@ == key_material_of(key)
    &&& req.required_claims@.map_values(|s: String| s@) == required_claim_names()
    &&& !req.validate_exp
}

/// The claims that `jsonwebtoken::decode` must find present: `exp`, `iat` and `sub`.
pub open spec fn required_claim_names() -> Seq<Seq<char>> {
    seq!["exp"@, "iat"@, "sub"@]
}

/// The first check that `claims` fail at time `now` for an operation with intent hash
/// `expected`, in the order: expiry, issue time, hard TTL, intent hash, permissions.
pub open spec fn claims_rejection(claims: Claims, now: int, expected: Seq<char>) -> Option<JwtError> {
    if claims.exp < now {
        Some(JwtError::Expired)
    } else if claims.iat > now {
        Some(JwtError::IssuedInFuture)
    } else if claims.exp - claims.iat > HARD_TTL_SECONDS {
        Some(JwtError::TtlExceeded)
    } else if claims.intent_hash@ != expected {
        Some(JwtError::IntentHashMismatch)
    } else if claims.permissions@.len() == 0 {
        Some(JwtError::MissingPermissions)
    } else {
        None
    }
}

/// The verdict on decoded claims: the claims themselves when no check fails.
pub open spec fn claims_outcome(claims: Claims, now: int, expected: Seq<char>) -> Result<
    Claims,
    JwtError,
> {
    match claims_rejection(claims, now, expected) {
        Some(e) => Err(e),
        None => Ok(claims),
    }
}

/// Applies the checks on decoded claims at time `now`.
pub fn check_claims(claims: Claims, now: i64, expected_intent_hash: &str) -> (r: Result<
    Claims,
    JwtError,
>)
    ensures
        r == claims_outcome(claims, now as int, expected_intent_hash@),
{
    if claims.exp < now {
        return Err(JwtError::Expired);
    }
    if claims.iat > now {
        return Err(JwtError::IssuedInFuture);
    }
    let lifetime: i128 = claims.exp as i128 - claims.iat as i128;
    if lifetime > HARD_TTL_SECONDS as i128 {
        return Err(JwtError::TtlExceeded);
    }
    let expected = expected_intent_hash.to_owned();
    if claims.intent_hash != expected {
        return Err(JwtError::IntentHashMismatch);
    }
    if claims.permissions.len() == 0 {
        return Err(JwtError::MissingPermissions);
    }
    Ok(claims)
}

/// Checks intent tokens against one key and one clock.
pub struct JwtVerifier<T: ?Sized + TimeSource> {
    key_source: JwtKeySource,
    time_source: Arc<T>,
}

impl JwtVerifier<SystemTimeSource> {
    /// A verifier that reads the system clock.
    pub fn new(key_source: JwtKeySource) -> (v: Self)
        ensures
            v.spec_key_source() == key_source,
            *v.spec_time_source() == SystemTimeSource,
    {
        Self { key_source, time_source: Arc::new(SystemTimeSource) }
    }
}

impl<T: ?Sized + TimeSource> Clone for JwtVerifier<T> {
    /// A verifier with the same key that reads the same clock.
    fn clone(&self) -> (v: Self)
        ensures
            v.spec_key_source() == self.spec_key_source(),
            v.spec_time_source() == self.spec_time_source(),
    {
        Self { key_source: self.key_source.clone(), time_source: share(&self.time_source) }
    }
}

impl<T: ?Sized + TimeSource> JwtVerifier<T> {
    /// The key this verifier checks tokens with.
    pub closed spec fn spec_key_source(&self) -> JwtKeySource {
        self.key_source
    }

    /// The clock this verifier reads.
    pub closed spec fn spec_time_source(&self) -> Arc<T> {
        self.time_source
    }

    /// Whether `t` is a reading this verifier's clock may give.
    pub open spec fn clock_reads(&self, t: i64) -> bool {
        (*self.spec_time_source()).spec_reads(t)
    }

    /// A verifier that reads the given clock, and no other.
    pub fn with_time_source(key_source: JwtKeySource, time_source: Arc<T>) -> (v: Self)
        ensures
            v.spec_key_source() == key_source,
            v.spec_time_source() == time_source,
    {
        Self { key_source, time_source }
    }

    /// Reads the token's header and picks the decoding key: the header must name the
    /// key's algorithm, and an RSA key must parse.
    pub fn prepare_decode(&self, token: &str) -> (r: Result<DecodeRequest, JwtError>)
        ensures
            r is Ok == decode_admissible(self.spec_key_source(), token@),
            match header_algorithm_of(token@) {
                None => r matches Err(JwtError::InvalidToken(_)),
                Some(actual) => {
                    let expected = self.spec_key_source().spec_algorithm();
                    if actual != expected {
                        r matches Err(JwtError::AlgorithmMismatch { expected: e, actual: a })
                            && e == expected && a == actual
                    } else if self.spec_key_source() matches JwtKeySource::Rs256 { public_key_pem }
                        && !rsa_pem_accepted(public_key_pem@) {
                        r matches Err(JwtError::InvalidKey(_))
                    } else {
                        r matches Ok(req) && decode_request_for(req, self.spec_key_source())
                    }
                },
            },
    {
        let actual = match decode_header_algorithm(token) {
            Ok(a) => a,
            Err(e) => return Err(JwtError::InvalidToken(e)),
        };
        let expected = self.key_source.algorithm();
        let key_material = match &self.key_source {
            JwtKeySource::Hs256 { secret } => {
                if actual != JwtAlgorithm::HS256 {
                    return Err(JwtError::AlgorithmMismatch { expected, actual });
                }
                vstd::slice::slice_to_vec(&**secret)
            },
            JwtKeySource::Rs256 { public_key_pem } => {
                if actual != JwtAlgorithm::RS256 {
                    return Err(JwtError::AlgorithmMismatch { expected, actual });
                }
                if let Err(e) = decoding_key_from_rsa_pem(&**public_key_pem) {
                    return Err(JwtError::InvalidKey(e));
                }
                vstd::slice::slice_to_vec(&**public_key_pem)
            },
        };
        Ok(DecodeRequest {
            algorithm: expected,
            key_material,
            required_claims: required_claims(),
            validate_exp: false,
        })
    }

    /// Takes a token and the outcome of decoding it (signature and claims): a decoding
    /// failure is an invalid token; so is a token whose signature does not check out
    /// under this verifier's own key. Otherwise the claim checks are applied at the time
    /// read from this verifier's own clock. The clock is read only in that last case.
    pub fn finish_verify(
        &self,
        token: &str,
        decoded: Result<Claims, DecodeError>,
        expected_intent_hash: &str,
    ) -> (r: Result<Claims, JwtError>)
        ensures
            verdict_at_clock(*self, token@, decoded, expected_intent_hash@, r),
    {
        match decoded {
            Err(e) => Err(JwtError::InvalidToken(e)),
            Ok(claims) => {
                let required = required_claims();
                let signed = match &self.key_source {
                    JwtKeySource::Hs256 { secret } => decode_with_secret(
                        token,
                        JwtAlgorithm::HS256,
                        &**secret,
                        &required,
                        false,
                    ),
                    JwtKeySource::Rs256 { public_key_pem } => decode_with_rsa_pem(
                        token,
                        JwtAlgorithm::RS256,
                        &**public_key_pem,
                        &required,
                        false,
                    ),
                };
                if let Err(e) = signed {
                    return Err(JwtError::InvalidToken(e));
                }
                let now = self.time_source.now();
                let ghost c = claims;
                let r = check_claims(claims, now, expected_intent_hash);
                assert(self.clock_reads(now) && r == claims_outcome(c, now as int, expected_intent_hash@));
                r
            },
        }
    }
}

/// The claims that `jsonwebtoken::decode` must find present.
fn required_claims() -> (v: Vec<String>)
    ensures
        v@.map_values(|s: String| s@) == required_claim_names(),
{
    let v = vec!["exp".to_owned(), "iat".to_owned(), "sub".to_owned()];
    assert(v@.map_values(|s: String| s@) =~= required_claim_names());
    v
}

/// What `finish_verify` may return for a verifier and a token: for a decoding failure,
/// that failure as an invalid token; for a token whose signature does not check out
/// under the verifier's key, an invalid token; otherwise the claim verdict at some time
/// the verifier's own clock may read.
pub open spec fn verdict_at_clock<T: ?Sized + TimeSource>(
    v: JwtVerifier<T>,
    token: Seq<char>,
    decoded: Result<Claims, DecodeError>,
    expected: Seq<char>,
    r: Result<Claims, JwtError>,
) -> bool {
    match decoded {
        Err(e) => r == Err::<Claims, JwtError>(JwtError::InvalidToken(e)),
        Ok(claims) => if signed_for_key(v.spec_key_source(), token) {
            exists|now: i64|
                v.clock_reads(now) && r == #[trigger] claims_outcome(claims, now as int, expected)
        } else {
            r matches Err(JwtError::InvalidToken(_))
        },
    }
}

/// Whether two verdicts are the same, the underlying error of an invalid token aside.
pub open spec fn same_verdict(r1: Result<Claims, JwtError>, r2: Result<Claims, JwtError>) -> bool {
    match (r1, r2) {
        (Err(JwtError::InvalidToken(_)), Err(JwtError::InvalidToken(_))) => true,
        _ => r1 == r2,
    }
}

/// A verifier accepts only tokens signed for its key: whatever decoded claims it is
/// handed, an accepted token's signature checks out under the verifier's key, and the
/// claims passed every check at a time its clock may read.
pub proof fn lemma_accepted_tokens_are_signed<T: ?Sized + TimeSource>(
    v: JwtVerifier<T>,
    token: Seq<char>,
    decoded: Result<Claims, DecodeError>,
    expected: Seq<char>,
    r: Result<Claims, JwtError>,
)
    requires
        verdict_at_clock(v, token, decoded, expected, r),
        r is Ok,
    ensures
        signed_for_key(v.spec_key_source(), token),
        decoded is Ok,
        exists|now: i64|
            v.clock_reads(now) && r == #[trigger] claims_outcome(decoded->Ok_0, now as int, expected),
{
}

/// A verifier reads time only through its own clock, and its key decides how a token is
/// decoded and whether its signature checks out: two verifiers with the same key whose
/// clocks both read `n` pick the same decode request for a token and give the same
/// verdict on it and the same decoded claims.
pub proof fn lemma_same_key_and_reading_same_verdict<T1: ?Sized + TimeSource, T2: ?Sized + TimeSource>(
    v1: JwtVerifier<T1>,
    v2: JwtVerifier<T2>,
    n: i64,
    token: Seq<char>,
    req1: DecodeRequest,
    req2: DecodeRequest,
    decoded: Result<Claims, DecodeError>,
    expected: Seq<char>,
    r1: Result<Claims, JwtError>,
    r2: Result<Claims, JwtError>,
)
    requires
        v1.spec_key_source() == v2.spec_key_source(),
        forall|t: i64| #[trigger] v1.clock_reads(t) ==> t == n,
        forall|t: i64| #[trigger] v2.clock_reads(t) ==> t == n,
        decode_request_for(req1, v1.spec_key_source()),
        decode_request_for(req2, v2.spec_key_source()),
        verdict_at_clock(v1, token, decoded, expected, r1),
        verdict_at_clock(v2, token, decoded, expected, r2),
    ensures
        decode_admissible(v1.spec_key_source(), token) == decode_admissible(v2.spec_key_source(), token),
        req1.algorithm == req2.algorithm,
        req1.key_material@ == req2.key_material@,
        req1.required_claims@.map_values(|s: String| s@) == req2.required_claims@.map_values(
            |s: String| s@,
        ),
        req1.validate_exp == req2.validate_exp,
        same_verdict(r1, r2),
{
    if let Ok(claims) = decoded {
        if signed_for_key(v1.spec_key_source(), token) {
            let t1 = choose|t: i64|
                v1.clock_reads(t) && r1 == #[trigger] claims_outcome(claims, t as int, expected);
            let t2 = choose|t: i64|
                v2.clock_reads(t) && r2 == #[trigger] claims_outcome(claims, t as int, expected);
            assert(t1 == n);
            assert(t2 == n);
        }
    }
}

/// A token accepted for one intent is refused for every other: with a clock that reads
/// `n`, the same token and claims checked against another intent hash fail on the
/// intent.
pub proof fn lemma_accepted_token_refused_for_other_intents<T: ?Sized + TimeSource>(
    v: JwtVerifier<T>,
    n: i64,
    token: Seq<char>,
    decoded: Result<Claims, DecodeError>,
    h1: Seq<char>,
    h2: Seq<char>,
    r1: Result<Claims, JwtError>,
    r2: Result<Claims, JwtError>,
)
    requires
        forall|t: i64| #[trigger] v.clock_reads(t) ==> t == n,
        verdict_at_clock(v, token, decoded, h1, r1),
        verdict_at_clock(v, token, decoded, h2, r2),
        r1 is Ok,
        h1 != h2,
    ensures
        r2 matches Err(JwtError::IntentHashMismatch),
{
    let claims = decoded->Ok_0;
    let t1 = choose|t: i64| v.clock_reads(t) && r1 == #[trigger] claims_outcome(claims, t as int, h1);
    let t2 = choose|t: i64| v.clock_reads(t) && r2 == #[trigger] claims_outcome(claims, t as int, h2);
    assert(t1 == n && t2 == n);
}

/// A verifier made by `new` is the verifier `with_time_source` makes from the same key
/// and the system clock: both read the same clock, so they admit the same verdicts.
pub proof fn lemma_new_reads_the_system_clock(
    v1: JwtVerifier<SystemTimeSource>,
    v2: JwtVerifier<SystemTimeSource>,
    token: Seq<char>,
    decoded: Result<Claims, DecodeError>,
    expected: Seq<char>,
    r: Result<Claims, JwtError>,
)
    requires
        v1.spec_key_source() == v2.spec_key_source(),
        *v1.spec_time_source() == SystemTimeSource,
        *v2.spec_time_source() == SystemTimeSource,
    ensures
        forall|t: i64| #[trigger] v1.clock_reads(t) == v2.clock_reads(t),
        verdict_at_clock(v1, token, decoded, expected, r) == verdict_at_clock(
            v2,
            token,
            decoded,
            expected,
            r,
        ),
{
}

/// A token is accepted at `now` exactly when it is not expired, not issued in the
/// future, valid for at most sixty seconds, bound to the requested intent and grants
/// some permission.
pub proof fn lemma_accepted_claims_respect_window(claims: Claims, now: int, expected: Seq<char>)
    ensures
        claims_outcome(claims, now, expected) is Ok <==> {
            &&& claims.iat <= now <= claims.exp
            &&& claims.exp - claims.iat <= 60
            &&& claims.intent_hash@ == expected
            &&& claims.permissions@.len() > 0
        },
        claims_outcome(claims, now, expected) matches Ok(c) ==> c == claims,
{
}

/// One token serves one intent: claims accepted for two intent hashes at any two times
/// name the same intent hash.
pub proof fn lemma_token_bound_to_one_intent(
    claims: Claims,
    now1: int,
    now2: int,
    intent1: Seq<char>,
    intent2: Seq<char>,
)
    requires
        claims_outcome(claims, now1, intent1) is Ok,
        claims_outcome(claims, now2, intent2) is Ok,
    ensures
        intent1 == intent2,
{
}

} // verus!
