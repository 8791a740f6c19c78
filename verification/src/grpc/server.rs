//! The decisions of the sandbox control service: which intent each request carries,
//! which limits a sandbox gets, and whether a request is authorised.
//!
//! Every request names its operation through an intent hash, the lowercase hex SHA-256
//! of a payload that spells out the operation and its arguments. A token is accepted
//! for a request only when it carries that very hash.

use std::sync::Arc;

use jsonwebtoken::errors::Error as DecodeError;
use sha2::{Digest, Sha256};
use vstd::prelude::*;

use crate::jwt::checker::{
    algorithm_name, claims_outcome, decode_admissible, decode_request_for, header_algorithm_of,
    jwt_message_fits, signed_for_key, DecodeRequest, JwtError, JwtKeySource, JwtVerifier, TimeSource,
};
use crate::jwt::claims::Claims;
use crate::sandbox::limits::{default_limits, limits_error, ResourceLimitConfig};
use crate::sandbox::{sandbox_error_text, SandboxConfig};
use crate::text::{
    append_bool, append_decimal, bool_text, decimal_text, hex_lower, hex_text,
    is_lower_hex_char, lemma_bool_text_facts, lemma_decimal_text_has_no_colon,
    lemma_decimal_text_injective, lemma_hex_text_injective, lemma_hex_text_shape,
    lemma_split_at_first, lemma_split_at_last, str_eq,
};

verus! {

/// SHA-256 of the UTF-8 encoding of a string, as `sha2::Sha256::digest` computes it.
pub uninterp spec fn sha256_of(text: Seq<char>) -> Seq<u8>;

/// Calls `sha2::Sha256::digest` on the string's bytes. The contract claims that the
/// digest is a function of the string (named `sha256_of`) and is 32 bytes long.
#[verifier::external_body]
fn sha256_digest(payload: &str) -> (d: Vec<u8>)
    ensures
        d@ == sha256_of(payload@),
        d@.len() == 32,
{
    Sha256::digest(payload.as_bytes()).to_vec()
}

/// The intent hash of a payload: its SHA-256 in lowercase hex.
pub open spec fn intent_hash_text(payload: Seq<char>) -> Seq<char> {
    hex_text(sha256_of(payload))
}

/// Whether a text has the shape of an intent hash: 64 lowercase hex digits.
pub open spec fn is_intent_hash_shape(h: Seq<char>) -> bool {
    &&& h.len() == 64
    &&& forall|i: int| 0 <= i < h.len() ==> is_lower_hex_char(#[trigger] h[i])
}

/// The payload that names the creation of a sandbox for an agent with given limits.
pub open spec fn create_payload(agent_id: Seq<char>, limits: ResourceLimitConfig) -> Seq<char> {
    "create:"@ + agent_id + ":"@ + decimal_text(limits.cpu_cores as int) + ":"@ + decimal_text(
        limits.memory_mb as int,
    ) + ":"@ + bool_text(limits.network_enabled)
}

/// The payload that names running code in a language in a sandbox.
pub open spec fn execute_payload(sandbox_id: Seq<char>, language: Seq<char>, code: Seq<char>) -> Seq<
    char,
> {
    "execute:"@ + sandbox_id + ":"@ + language + ":"@ + code
}

/// The payload that names the termination of a sandbox.
pub open spec fn terminate_payload(sandbox_id: Seq<char>) -> Seq<char> {
    "terminate:"@ + sandbox_id
}

/// The payload that names a liveness check of a sandbox.
pub open spec fn heartbeat_payload(sandbox_id: Seq<char>) -> Seq<char> {
    "heartbeat:"@ + sandbox_id
}

/// The intent hash of a payload: 64 lowercase hex digits.
pub fn hash_payload(payload: &str) -> (h: String)
    ensures
        h@ == intent_hash_text(payload@),
        h@ == hex_text(sha256_of(payload@)),
        is_intent_hash_shape(h@),
{
    let digest = sha256_digest(payload);
    proof {
        lemma_hex_text_shape(digest@);
    }
    hex_lower(digest.as_slice())
}

/// Whether `m` is the refusal message for a token whose header does not suit a key:
/// a decoding failure, an algorithm mismatch naming both algorithms, or a key that
/// does not parse.
pub open spec fn header_refusal_fits(key: JwtKeySource, token: Seq<char>, m: Seq<char>) -> bool {
    match header_algorithm_of(token) {
        None => exists|t: Seq<char>| m == "token decoding failed: "@ + t,
        Some(actual) => if actual != key.spec_algorithm() {
            m == "token algorithm mismatch: expected "@ + algorithm_name(key.spec_algorithm())
                + ", got "@ + algorithm_name(actual)
        } else {
            exists|t: Seq<char>| m == "configured verification key is invalid: "@ + t
        },
    }
}

/// The intent hash for creating a sandbox.
pub fn create_intent_hash(agent_id: &str, limits: &ResourceLimitConfig) -> (h: String)
    ensures
        h@ == intent_hash_text(create_payload(agent_id@, *limits)),
        h@ == hex_text(
            sha256_of(
                "create:"@ + agent_id@ + ":"@ + decimal_text(limits.cpu_cores as int) + ":"@
                    + decimal_text(limits.memory_mb as int) + ":"@ + bool_text(limits.network_enabled),
            ),
        ),
        is_intent_hash_shape(h@),
{
    let mut payload = String::from_str("create:");
    payload.append(agent_id);
    payload.append(":");
    append_decimal(&mut payload, limits.cpu_cores as i64);
    payload.append(":");
    append_decimal(&mut payload, limits.memory_mb);
    payload.append(":");
    append_bool(&mut payload, limits.network_enabled);
    assert(payload@ =~= create_payload(agent_id@, *limits));
    hash_payload(payload.as_str())
}

/// The intent hash for running code in a sandbox.
pub fn execute_intent_hash(sandbox_id: &str, language: &str, code: &str) -> (h: String)
    ensures
        h@ == intent_hash_text(execute_payload(sandbox_id@, language@, code@)),
        h@ == hex_text(
            sha256_of("execute:"@ + sandbox_id@ + ":"@ + language@ + ":"@ + code@),
        ),
        is_intent_hash_shape(h@),
{
    proof {
        lemma_execute_payload_spells_out_request(sandbox_id@, language@, code@);
    }
    let mut payload = String::from_str("execute:");
    payload.append(sandbox_id);
    payload.append(":");
    payload.append(language);
    payload.append(":");
    payload.append(code);
    assert(payload@ =~= execute_payload(sandbox_id@, language@, code@));
    hash_payload(payload.as_str())
}

/// The intent hash for terminating a sandbox.
pub fn terminate_intent_hash(sandbox_id: &str) -> (h: String)
    ensures
        h@ == intent_hash_text(terminate_payload(sandbox_id@)),
        h@ == hex_text(sha256_of("terminate:"@ + sandbox_id@)),
        is_intent_hash_shape(h@),
{
    let mut payload = String::from_str("terminate:");
    payload.append(sandbox_id);
    hash_payload(payload.as_str())
}

/// The intent hash for a liveness check of a sandbox.
pub fn heartbeat_intent_hash(sandbox_id: &str) -> (h: String)
    ensures
        h@ == intent_hash_text(heartbeat_payload(sandbox_id@)),
        h@ == hex_text(sha256_of("heartbeat:"@ + sandbox_id@)),
        is_intent_hash_shape(h@),
{
    let mut payload = String::from_str("heartbeat:");
    payload.append(sandbox_id);
    hash_payload(payload.as_str())
}

/// An execute payload spells out the request as given: `execute:`, the sandbox id, a
/// colon, the language, a colon and then the code itself, unchanged whatever the
/// language; two requests that differ only in their code differ exactly there.
pub proof fn lemma_execute_payload_spells_out_request(
    sandbox_id: Seq<char>,
    language: Seq<char>,
    code: Seq<char>,
)
    ensures
        execute_payload(sandbox_id, language, code) == "execute:"@ + sandbox_id + ":"@ + language
            + ":"@ + code,
        execute_payload(sandbox_id, language, code).len() == 10 + sandbox_id.len() + language.len()
            + code.len(),
        execute_payload(sandbox_id, language, code).subrange(
            10 + sandbox_id.len() + language.len() as int,
            execute_payload(sandbox_id, language, code).len() as int,
        ) == code,
        forall|other: Seq<char>|
            #![trigger execute_payload(sandbox_id, other, code)]
            execute_payload(sandbox_id, other, code).subrange(
                10 + sandbox_id.len() + other.len() as int,
                execute_payload(sandbox_id, other, code).len() as int,
            ) == code,
{
    reveal_strlit("execute:");
    reveal_strlit(":");
    let p = execute_payload(sandbox_id, language, code);
    assert(p.subrange(10 + sandbox_id.len() + language.len() as int, p.len() as int) =~= code);
    assert forall|other: Seq<char>|
        #![trigger execute_payload(sandbox_id, other, code)]
        execute_payload(sandbox_id, other, code).subrange(
            10 + sandbox_id.len() + other.len() as int,
            execute_payload(sandbox_id, other, code).len() as int,
        ) == code by {
        let q = execute_payload(sandbox_id, other, code);
        assert(q.subrange(10 + sandbox_id.len() + other.len() as int, q.len() as int) =~= code);
    }
}

/// Requests of different operations are named by different payloads, whatever their
/// arguments: a payload starts with its operation's name.
pub proof fn lemma_operation_payloads_differ(
    agent_id: Seq<char>,
    limits: ResourceLimitConfig,
    sandbox_id: Seq<char>,
    language: Seq<char>,
    code: Seq<char>,
    other_id: Seq<char>,
)
    ensures
        create_payload(agent_id, limits) != execute_payload(sandbox_id, language, code),
        create_payload(agent_id, limits) != terminate_payload(other_id),
        create_payload(agent_id, limits) != heartbeat_payload(other_id),
        execute_payload(sandbox_id, language, code) != terminate_payload(other_id),
        execute_payload(sandbox_id, language, code) != heartbeat_payload(other_id),
        terminate_payload(sandbox_id) != heartbeat_payload(other_id),
{
    reveal_strlit("create:");
    reveal_strlit("execute:");
    reveal_strlit("terminate:");
    reveal_strlit("heartbeat:");
    assert(create_payload(agent_id, limits)[0] == 'c');
    assert(execute_payload(sandbox_id, language, code)[0] == 'e');
    assert(terminate_payload(other_id)[0] == 't');
    assert(terminate_payload(sandbox_id)[0] == 't');
    assert(heartbeat_payload(other_id)[0] == 'h');
}

/// A termination payload names exactly one sandbox, and so does a heartbeat payload:
/// different ids give different payloads.
pub proof fn lemma_sandbox_payloads_name_one_sandbox(id1: Seq<char>, id2: Seq<char>)
    requires
        id1 != id2,
    ensures
        terminate_payload(id1) != terminate_payload(id2),
        heartbeat_payload(id1) != heartbeat_payload(id2),
{
    let t = "terminate:"@;
    let h = "heartbeat:"@;
    if terminate_payload(id1) == terminate_payload(id2) {
        assert(id1 =~= terminate_payload(id1).subrange(t.len() as int, terminate_payload(id1).len() as int));
        assert(id2 =~= terminate_payload(id2).subrange(t.len() as int, terminate_payload(id2).len() as int));
    }
    if heartbeat_payload(id1) == heartbeat_payload(id2) {
        assert(id1 =~= heartbeat_payload(id1).subrange(h.len() as int, heartbeat_payload(id1).len() as int));
        assert(id2 =~= heartbeat_payload(id2).subrange(h.len() as int, heartbeat_payload(id2).len() as int));
    }
}

/// Whether SHA-256 tells two payloads apart: equal digests only for equal payloads.
pub open spec fn digests_distinguish(p1: Seq<char>, p2: Seq<char>) -> bool {
    sha256_of(p1) == sha256_of(p2) ==> p1 == p2
}

/// Equal intent hashes come only from equal digests, so different payloads that SHA-256
/// tells apart have different intent hashes.
pub proof fn lemma_intent_hash_identifies_digest(p1: Seq<char>, p2: Seq<char>)
    ensures
        intent_hash_text(p1) == intent_hash_text(p2) ==> sha256_of(p1) == sha256_of(p2),
        p1 != p2 && digests_distinguish(p1, p2) ==> intent_hash_text(p1) != intent_hash_text(p2),
{
    if intent_hash_text(p1) == intent_hash_text(p2) {
        lemma_hex_text_injective(sha256_of(p1), sha256_of(p2));
    }
}

/// An execute payload names one request: where sandbox ids and languages hold no colon,
/// equal payloads have the same sandbox, language and code.
pub proof fn lemma_execute_payload_injective(
    s1: Seq<char>,
    l1: Seq<char>,
    c1: Seq<char>,
    s2: Seq<char>,
    l2: Seq<char>,
    c2: Seq<char>,
)
    requires
        !s1.contains(':'),
        !l1.contains(':'),
        !s2.contains(':'),
        !l2.contains(':'),
        execute_payload(s1, l1, c1) == execute_payload(s2, l2, c2),
    ensures
        s1 == s2,
        l1 == l2,
        c1 == c2,
{
    reveal_strlit(":");
    let e = "execute:"@;
    assert(":"@ =~= seq![':']);
    let r1 = s1 + seq![':'] + (l1 + seq![':'] + c1);
    let r2 = s2 + seq![':'] + (l2 + seq![':'] + c2);
    let p = execute_payload(s1, l1, c1);
    assert(p =~= e + r1);
    assert(execute_payload(s2, l2, c2) =~= e + r2);
    assert(r1 =~= p.subrange(e.len() as int, p.len() as int));
    assert(r2 =~= p.subrange(e.len() as int, p.len() as int));
    lemma_split_at_first(s1, l1 + seq![':'] + c1, s2, l2 + seq![':'] + c2, ':');
    lemma_split_at_first(l1, c1, l2, c2, ':');
}

/// A create payload names one request: equal payloads have the same agent and the same
/// limits (the three limit fields hold no colon, so the agent id may hold any text).
pub proof fn lemma_create_payload_injective(
    a1: Seq<char>,
    lim1: ResourceLimitConfig,
    a2: Seq<char>,
    lim2: ResourceLimitConfig,
)
    requires
        create_payload(a1, lim1) == create_payload(a2, lim2),
    ensures
        a1 == a2,
        lim1 == lim2,
{
    reveal_strlit(":");
    assert(":"@ =~= seq![':']);
    let c = "create:"@;
    let d11 = decimal_text(lim1.cpu_cores as int);
    let d12 = decimal_text(lim1.memory_mb as int);
    let b1 = bool_text(lim1.network_enabled);
    let d21 = decimal_text(lim2.cpu_cores as int);
    let d22 = decimal_text(lim2.memory_mb as int);
    let b2 = bool_text(lim2.network_enabled);
    lemma_decimal_text_has_no_colon(lim1.cpu_cores as int);
    lemma_decimal_text_has_no_colon(lim1.memory_mb as int);
    lemma_decimal_text_has_no_colon(lim2.cpu_cores as int);
    lemma_decimal_text_has_no_colon(lim2.memory_mb as int);
    lemma_bool_text_facts(lim1.network_enabled, lim2.network_enabled);
    lemma_bool_text_facts(lim2.network_enabled, lim1.network_enabled);
    let h1 = c + a1;
    let h2 = c + a2;
    assert(create_payload(a1, lim1) =~= (h1 + seq![':'] + d11 + seq![':'] + d12) + seq![':'] + b1);
    assert(create_payload(a2, lim2) =~= (h2 + seq![':'] + d21 + seq![':'] + d22) + seq![':'] + b2);
    lemma_split_at_last(
        h1 + seq![':'] + d11 + seq![':'] + d12,
        b1,
        h2 + seq![':'] + d21 + seq![':'] + d22,
        b2,
        ':',
    );
    lemma_split_at_last(h1 + seq![':'] + d11, d12, h2 + seq![':'] + d21, d22, ':');
    lemma_split_at_last(h1, d11, h2, d21, ':');
    assert(a1 =~= h1.subrange(c.len() as int, h1.len() as int));
    assert(a2 =~= h2.subrange(c.len() as int, h2.len() as int));
    lemma_decimal_text_injective(lim1.cpu_cores as int, lim2.cpu_cores as int);
    lemma_decimal_text_injective(lim1.memory_mb as int, lim2.memory_mb as int);
}

/// Execute intents are bound to their request: two execute requests that differ in
/// sandbox, language or code (ids and languages holding no colon) have different intent
/// hashes, unless SHA-256 fails to tell their payloads apart.
pub proof fn lemma_execute_intents_identify_requests(
    s1: Seq<char>,
    l1: Seq<char>,
    c1: Seq<char>,
    s2: Seq<char>,
    l2: Seq<char>,
    c2: Seq<char>,
)
    requires
        !s1.contains(':'),
        !l1.contains(':'),
        !s2.contains(':'),
        !l2.contains(':'),
        s1 != s2 || l1 != l2 || c1 != c2,
        digests_distinguish(execute_payload(s1, l1, c1), execute_payload(s2, l2, c2)),
    ensures
        intent_hash_text(execute_payload(s1, l1, c1)) != intent_hash_text(execute_payload(s2, l2, c2)),
{
    if execute_payload(s1, l1, c1) == execute_payload(s2, l2, c2) {
        lemma_execute_payload_injective(s1, l1, c1, s2, l2, c2);
    }
    lemma_intent_hash_identifies_digest(execute_payload(s1, l1, c1), execute_payload(s2, l2, c2));
}

/// Create intents are bound to their request: requests for different agents or
/// different limits have different intent hashes, unless SHA-256 fails to tell their
/// payloads apart.
pub proof fn lemma_create_intents_identify_requests(
    a1: Seq<char>,
    lim1: ResourceLimitConfig,
    a2: Seq<char>,
    lim2: ResourceLimitConfig,
)
    requires
        a1 != a2 || lim1 != lim2,
        digests_distinguish(create_payload(a1, lim1), create_payload(a2, lim2)),
    ensures
        intent_hash_text(create_payload(a1, lim1)) != intent_hash_text(create_payload(a2, lim2)),
{
    if create_payload(a1, lim1) == create_payload(a2, lim2) {
        lemma_create_payload_injective(a1, lim1, a2, lim2);
    }
    lemma_intent_hash_identifies_digest(create_payload(a1, lim1), create_payload(a2, lim2));
}

/// A termination intent names one sandbox and no other operation: it equals the
/// termination intent of the same sandbox only, and differs from every heartbeat,
/// execute and create intent, unless SHA-256 fails to tell the payloads apart.
pub proof fn lemma_terminate_intents_identify_requests(
    s: Seq<char>,
    s2: Seq<char>,
    language: Seq<char>,
    code: Seq<char>,
    agent_id: Seq<char>,
    limits: ResourceLimitConfig,
)
    requires
        digests_distinguish(terminate_payload(s), terminate_payload(s2)),
        digests_distinguish(terminate_payload(s), heartbeat_payload(s2)),
        digests_distinguish(terminate_payload(s), execute_payload(s2, language, code)),
        digests_distinguish(terminate_payload(s), create_payload(agent_id, limits)),
    ensures
        (intent_hash_text(terminate_payload(s)) == intent_hash_text(terminate_payload(s2))) == (s
            == s2),
        intent_hash_text(terminate_payload(s)) != intent_hash_text(heartbeat_payload(s2)),
        intent_hash_text(terminate_payload(s)) != intent_hash_text(execute_payload(s2, language, code)),
        intent_hash_text(terminate_payload(s)) != intent_hash_text(create_payload(agent_id, limits)),
{
    lemma_operation_payloads_differ(agent_id, limits, s2, language, code, s);
    lemma_operation_payloads_differ(agent_id, limits, s, language, code, s2);
    if s != s2 {
        lemma_sandbox_payloads_name_one_sandbox(s, s2);
    }
    lemma_intent_hash_identifies_digest(terminate_payload(s), terminate_payload(s2));
    lemma_intent_hash_identifies_digest(terminate_payload(s), heartbeat_payload(s2));
    lemma_intent_hash_identifies_digest(terminate_payload(s), execute_payload(s2, language, code));
    lemma_intent_hash_identifies_digest(terminate_payload(s), create_payload(agent_id, limits));
}

/// The resource limits field of a create request.
#[derive(Debug, Clone, Copy, PartialEq, Eq)]
pub struct ResourceLimits {
    pub cpu_cores: i32,
    pub memory_mb: i64,
    pub network_enabled: bool,
}

/// Why the service refused a request, with the status message.
#[derive(Debug, Clone, PartialEq, Eq)]
pub enum ServiceError {
    PermissionDenied(String),
    Internal(String),
}

/// The error for a failure inside the service, carrying the failure's message.
pub fn internal_status(message: String) -> (e: ServiceError)
    ensures
        e == ServiceError::Internal(message),
{
    ServiceError::Internal(message)
}

/// The limits a create request asks for: its own, or the defaults when it names none.
pub open spec fn requested_limits(limits: Option<ResourceLimits>) -> ResourceLimitConfig {
    match limits {
        Some(item) => ResourceLimitConfig {
            cpu_cores: item.cpu_cores,
            memory_mb: item.memory_mb,
            network_enabled: item.network_enabled,
        },
        None => default_limits(),
    }
}

/// The limits of a create request, refused as an internal error when out of bounds.
pub fn map_limits(limits: Option<ResourceLimits>) -> (r: Result<ResourceLimitConfig, ServiceError>)
    ensures
        match limits_error(requested_limits(limits)) {
            Some(e) => r matches Err(ServiceError::Internal(m)) && m@ == sandbox_error_text(e),
            None => r == Ok::<ResourceLimitConfig, ServiceError>(requested_limits(limits)),
        },
{
    let mapped = match limits {
        Some(item) => ResourceLimitConfig {
            cpu_cores: item.cpu_cores,
            memory_mb: item.memory_mb,
            network_enabled: item.network_enabled,
        },
        None => ResourceLimitConfig::default(),
    };
    match mapped.validate() {
        Ok(()) => Ok(mapped),
        Err(e) => Err(internal_status(e.message())),
    }
}

/// A request that names no limits gets the defaults, which are always accepted.
pub proof fn lemma_missing_limits_get_defaults()
    ensures
        limits_error(requested_limits(None)) is None,
        requested_limits(None) == default_limits(),
{
}

/// What a request asks the sandbox backend to do.
#[derive(Debug, Clone)]
pub enum SandboxOperation {
    Create(SandboxConfig),
    Execute { sandbox_id: String, language: String, code: String },
    Terminate { sandbox_id: String },
    Heartbeat { sandbox_id: String },
}

/// A request whose operation and intent are known and whose token may be decoded: the
/// operation it asks for, the intent hash its token must carry, and what to decode the
/// token with.
pub struct Authorization {
    operation: SandboxOperation,
    intent_hash: String,
    token: String,
    decode: DecodeRequest,
}

impl Authorization {
    /// The operation the request asks for.
    pub closed spec fn spec_operation(&self) -> SandboxOperation {
        self.operation
    }

    /// The intent hash the request's token must carry.
    pub closed spec fn spec_intent_hash(&self) -> Seq<char> {
        self.intent_hash@
    }

    /// The request's token.
    pub closed spec fn spec_token(&self) -> Seq<char> {
        self.token@
    }

    /// What to decode the request's token with.
    pub closed spec fn spec_decode(&self) -> DecodeRequest {
        self.decode
    }

    /// The operation the request asks for.
    pub fn operation(&self) -> (o: &SandboxOperation)
        ensures
            *o == self.spec_operation(),
    {
        &self.operation
    }

    /// The intent hash the request's token must carry.
    pub fn intent_hash(&self) -> (h: &str)
        ensures
            h@ == self.spec_intent_hash(),
    {
        self.intent_hash.as_str()
    }

    /// What to decode the request's token with.
    pub fn decode(&self) -> (d: &DecodeRequest)
        ensures
            *d == self.spec_decode(),
    {
        &self.decode
    }
}

/// A request whose token has been confirmed: the token's claims and the operation,
/// which may now be run. Only `confirm` makes one.
pub struct Confirmed {
    claims: Claims,
    operation: SandboxOperation,
}

impl Confirmed {
    /// The claims of the confirmed token.
    pub closed spec fn spec_claims(&self) -> Claims {
        self.claims
    }

    /// The operation the confirmed request asks for.
    pub closed spec fn spec_operation(&self) -> SandboxOperation {
        self.operation
    }

    /// The claims of the confirmed token.
    pub fn claims(&self) -> (c: &Claims)
        ensures
            *c == self.spec_claims(),
    {
        &self.claims
    }

    /// The operation the confirmed request asks for.
    pub fn operation(&self) -> (o: &SandboxOperation)
        ensures
            *o == self.spec_operation(),
    {
        &self.operation
    }

    /// Hands the operation over to be run.
    pub fn into_operation(self) -> (o: SandboxOperation)
        ensures
            o == self.spec_operation(),
    {
        self.operation
    }
}

/// The refusal of a request whose token the verifier rejects.
pub fn permission_denied(err: &JwtError) -> (e: ServiceError)
    ensures
        e matches ServiceError::PermissionDenied(m) && jwt_message_fits(*err, m@),
{
    ServiceError::PermissionDenied(err.message())
}

/// Starts the authorisation of an operation with a known intent hash: the token's
/// header must suit the verifier's key, and the token is then to be decoded with that
/// key's algorithm and bytes.
pub fn authorize<T: ?Sized + TimeSource>(
    verifier: &JwtVerifier<T>,
    jwt: &str,
    intent_hash: String,
    operation: SandboxOperation,
) -> (r: Result<Authorization, ServiceError>)
    ensures
        r is Ok == decode_admissible(verifier.spec_key_source(), jwt@),
        r matches Ok(a) ==> (a.spec_intent_hash() == intent_hash@ && a.spec_operation() == operation
            && a.spec_token() == jwt@ && decode_request_for(a.spec_decode(), verifier.spec_key_source())),
        r matches Err(e) ==> (e matches ServiceError::PermissionDenied(m) && header_refusal_fits(
            verifier.spec_key_source(),
            jwt@,
            m@,
        )),
{
    match verifier.prepare_decode(jwt) {
        Ok(decode) => Ok(Authorization { operation, intent_hash, token: jwt.to_owned(), decode }),
        Err(err) => Err(permission_denied(&err)),
    }
}

/// Starts the authorisation of a create request: the limits must be in bounds, the
/// request's intent hash must be the one its agent and limits give, and the token's
/// header must suit the verifier's key; checked in this order. The operation creates a
/// sandbox for the agent with those limits and the given workspace.
pub fn authorize_create<T: ?Sized + TimeSource>(
    verifier: &JwtVerifier<T>,
    agent_id: &str,
    jwt: &str,
    intent_hash: &str,
    limits: Option<ResourceLimits>,
    workspace_dir: &str,
) -> (r: Result<Authorization, ServiceError>)
    ensures
        ({
            let mapped = requested_limits(limits);
            let expected = intent_hash_text(create_payload(agent_id@, mapped));
            match limits_error(mapped) {
                Some(e) => r matches Err(ServiceError::Internal(m)) && m@ == sandbox_error_text(e),
                None => if intent_hash@ != expected {
                    r matches Err(ServiceError::PermissionDenied(m)) && m@
                        == "request intent hash mismatch"@
                } else {
                    &&& r is Ok == decode_admissible(verifier.spec_key_source(), jwt@)
                    &&& r matches Ok(a) ==> (a.spec_intent_hash() == expected && a.spec_token() == jwt@ && decode_request_for(
                        a.spec_decode(),
                        verifier.spec_key_source(),
                    ) && (a.spec_operation() matches SandboxOperation::Create(config) && config.agent_id@
                        == agent_id@ && config.limits == mapped && config.workspace_dir@
                        == workspace_dir@))
                    &&& r matches Err(e) ==> (e matches ServiceError::PermissionDenied(m)
                        && header_refusal_fits(verifier.spec_key_source(), jwt@, m@))
                },
            }
        }),
{
    let limits = match map_limits(limits) {
        Ok(l) => l,
        Err(e) => return Err(e),
    };
    let expected = create_intent_hash(agent_id, &limits);
    if !str_eq(intent_hash, expected.as_str()) {
        return Err(ServiceError::PermissionDenied(String::from_str("request intent hash mismatch")));
    }
    let operation = SandboxOperation::Create(
        SandboxConfig {
            agent_id: agent_id.to_owned(),
            limits,
            workspace_dir: workspace_dir.to_owned(),
        },
    );
    authorize(verifier, jwt, expected, operation)
}

/// Starts the authorisation of running code in a sandbox.
pub fn authorize_execute<T: ?Sized + TimeSource>(
    verifier: &JwtVerifier<T>,
    sandbox_id: &str,
    language: &str,
    code: &str,
    jwt: &str,
) -> (r: Result<Authorization, ServiceError>)
    ensures
        r is Ok == decode_admissible(verifier.spec_key_source(), jwt@),
        r matches Ok(a) ==> (a.spec_token() == jwt@ && a.spec_intent_hash() == intent_hash_text(
            execute_payload(sandbox_id@, language@, code@),
        ) && decode_request_for(a.spec_decode(), verifier.spec_key_source())
            && (a.spec_operation() matches SandboxOperation::Execute { sandbox_id: s, language: l, code: c }
            && s@ == sandbox_id@ && l@ == language@ && c@ == code@)),
        r matches Err(e) ==> (e matches ServiceError::PermissionDenied(m) && header_refusal_fits(
            verifier.spec_key_source(),
            jwt@,
            m@,
        )),
{
    let operation = SandboxOperation::Execute {
        sandbox_id: sandbox_id.to_owned(),
        language: language.to_owned(),
        code: code.to_owned(),
    };
    authorize(verifier, jwt, execute_intent_hash(sandbox_id, language, code), operation)
}

/// Starts the authorisation of terminating a sandbox.
pub fn authorize_terminate<T: ?Sized + TimeSource>(
    verifier: &JwtVerifier<T>,
    sandbox_id: &str,
    jwt: &str,
) -> (r: Result<Authorization, ServiceError>)
    ensures
        r is Ok == decode_admissible(verifier.spec_key_source(), jwt@),
        r matches Ok(a) ==> (a.spec_token() == jwt@ && a.spec_intent_hash() == intent_hash_text(terminate_payload(sandbox_id@))
            && decode_request_for(a.spec_decode(), verifier.spec_key_source())
            && (a.spec_operation() matches SandboxOperation::Terminate { sandbox_id: s } && s@ == sandbox_id@)),
        r matches Err(e) ==> (e matches ServiceError::PermissionDenied(m) && header_refusal_fits(
            verifier.spec_key_source(),
            jwt@,
            m@,
        )),
{
    let operation = SandboxOperation::Terminate { sandbox_id: sandbox_id.to_owned() };
    authorize(verifier, jwt, terminate_intent_hash(sandbox_id), operation)
}

/// Starts the authorisation of a liveness check of a sandbox.
pub fn authorize_heartbeat<T: ?Sized + TimeSource>(
    verifier: &JwtVerifier<T>,
    sandbox_id: &str,
    jwt: &str,
) -> (r: Result<Authorization, ServiceError>)
    ensures
        r is Ok == decode_admissible(verifier.spec_key_source(), jwt@),
        r matches Ok(a) ==> (a.spec_token() == jwt@ && a.spec_intent_hash() == intent_hash_text(heartbeat_payload(sandbox_id@))
            && decode_request_for(a.spec_decode(), verifier.spec_key_source())
            && (a.spec_operation() matches SandboxOperation::Heartbeat { sandbox_id: s } && s@ == sandbox_id@)),
        r matches Err(e) ==> (e matches ServiceError::PermissionDenied(m) && header_refusal_fits(
            verifier.spec_key_source(),
            jwt@,
            m@,
        )),
{
    let operation = SandboxOperation::Heartbeat { sandbox_id: sandbox_id.to_owned() };
    authorize(verifier, jwt, heartbeat_intent_hash(sandbox_id), operation)
}

/// Ends the authorisation of a request: the request's own token, decoded, must have a
/// signature that checks out under the verifier's key and must pass the claim checks
/// for the request's intent hash at a time read from the verifier's own clock. Only then
/// is the operation released, unchanged, to be run.
pub fn confirm<T: ?Sized + TimeSource>(
    verifier: &JwtVerifier<T>,
    authorization: Authorization,
    decoded: Result<Claims, DecodeError>,
) -> (r: Result<Confirmed, ServiceError>)
    ensures
        decoded matches Err(e) ==> (r matches Err(ServiceError::PermissionDenied(m))
            && jwt_message_fits(JwtError::InvalidToken(e), m@)),
        decoded is Ok && !signed_for_key(verifier.spec_key_source(), authorization.spec_token())
            ==> (r matches Err(ServiceError::PermissionDenied(m)) && exists|e: DecodeError|
            jwt_message_fits(JwtError::InvalidToken(e), m@)),
        decoded matches Ok(claims) ==> signed_for_key(
            verifier.spec_key_source(),
            authorization.spec_token(),
        ) ==> exists|now: i64|
            verifier.clock_reads(now) && match #[trigger] claims_outcome(
                claims,
                now as int,
                authorization.spec_intent_hash(),
            ) {
                Ok(c) => r matches Ok(x) && x.spec_claims() == c && x.spec_operation()
                    == authorization.spec_operation(),
                Err(je) => r matches Err(ServiceError::PermissionDenied(m)) && jwt_message_fits(je, m@),
            },
        r matches Ok(x) ==> x.spec_operation() == authorization.spec_operation() && signed_for_key(
            verifier.spec_key_source(),
            authorization.spec_token(),
        ),
{
    let ghost expected = authorization.spec_intent_hash();
    let ghost token = authorization.spec_token();
    let Authorization { operation, intent_hash, token: jwt, decode: _ } = authorization;
    assert(intent_hash@ == expected && jwt@ == token);
    match verifier.finish_verify(jwt.as_str(), decoded, intent_hash.as_str()) {
        Ok(claims) => Ok(Confirmed { claims, operation }),
        Err(err) => Err(permission_denied(&err)),
    }
}

} // verus!
