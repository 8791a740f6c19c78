use std::sync::Arc;

use jsonwebtoken::{encode, Algorithm, DecodingKey, EncodingKey, Header, Validation};
use serde_json::Value;

type JsonObject = serde_json::Map<String, Value>;
use vas_crucible::jwt::checker::{
    check_claims, JwtAlgorithm, JwtError, JwtKeySource, JwtVerifier, TimeSource,
};
use vas_crucible::jwt::claims::Claims;

struct FixedTime(i64);

impl TimeSource for FixedTime {
    fn now(&self) -> i64 {
        self.0
    }
}

fn make_claims(intent_hash: &str, now: i64) -> JsonObject {
    let mut claims = JsonObject::new();
    claims.insert("sub".to_string(), Value::from("agent-1"));
    claims.insert("exp".to_string(), Value::from(now + 45));
    claims.insert("iat".to_string(), Value::from(now));
    claims.insert("intent_hash".to_string(), Value::from(intent_hash));
    claims.insert(
        "permissions".to_string(),
        Value::Array(vec![Value::from("execute")]),
    );
    claims
}

fn sign(algorithm: Algorithm, secret: &str, claims: &JsonObject) -> String {
    encode(
        &Header::new(algorithm),
        claims,
        &EncodingKey::from_secret(secret.as_bytes()),
    )
    .expect("failed to sign test token")
}

fn sign_hs256(secret: &str, claims: &JsonObject) -> String {
    sign(Algorithm::HS256, secret, claims)
}

fn hs256_verifier(secret: &[u8], now: i64) -> JwtVerifier<FixedTime> {
    JwtVerifier::with_time_source(
        JwtKeySource::Hs256 {
            secret: Arc::<[u8]>::from(secret.to_vec()),
        },
        Arc::new(FixedTime(now)),
    )
}

fn claims_from_json(map: JsonObject) -> Claims {
    Claims {
        sub: map["sub"].as_str().expect("sub").to_string(),
        exp: map["exp"].as_i64().expect("exp"),
        iat: map["iat"].as_i64().expect("iat"),
        intent_hash: map["intent_hash"].as_str().expect("intent_hash").to_string(),
        permissions: map["permissions"]
            .as_array()
            .expect("permissions")
            .iter()
            .map(|p| p.as_str().expect("permission").to_string())
            .collect(),
    }
}

/// Verifies a token end to end: header and key, then decoding, then the claim checks.
fn verify<T: TimeSource>(
    verifier: &JwtVerifier<T>,
    token: &str,
    expected_intent_hash: &str,
) -> Result<Claims, JwtError> {
    let request = verifier.prepare_decode(token)?;
    let (algorithm, key) = match request.algorithm {
        JwtAlgorithm::HS256 => (Algorithm::HS256, DecodingKey::from_secret(&request.key_material)),
        JwtAlgorithm::RS256 => (
            Algorithm::RS256,
            DecodingKey::from_rsa_pem(&request.key_material).expect("key parsed by prepare_decode"),
        ),
        other => panic!("unexpected algorithm {other:?}"),
    };
    let mut validation = Validation::new(algorithm);
    validation.validate_exp = request.validate_exp;
    validation.required_spec_claims = request.required_claims.iter().cloned().collect();
    let decoded = jsonwebtoken::decode::<JsonObject>(token, &key, &validation)
        .map(|data| claims_from_json(data.claims));
    verifier.finish_verify(token, decoded, expected_intent_hash)
}

fn plain_claims(exp: i64, iat: i64, intent: &str, permissions: Vec<&str>) -> Claims {
    Claims {
        sub: "agent-1".to_string(),
        exp,
        iat,
        intent_hash: intent.to_string(),
        permissions: permissions.into_iter().map(str::to_string).collect(),
    }
}

#[test]
fn verifies_valid_jwt() {
    let now = 1_700_000_000_i64;
    let intent_hash = "intent-valid";
    let verifier = hs256_verifier(b"secret", now);
    let token = sign_hs256("secret", &make_claims(intent_hash, now));

    let claims = verify(&verifier, &token, intent_hash).expect("token should verify");
    assert_eq!(claims.sub, "agent-1");
}

#[test]
fn rejects_expired_jwt() {
    let now = 1_700_000_100_i64;
    let intent_hash = "intent-expired";
    let verifier = hs256_verifier(b"secret", now);
    let token = sign_hs256("secret", &make_claims(intent_hash, now - 100));

    let error = verify(&verifier, &token, intent_hash).expect_err("token should be expired");
    assert!(matches!(error, JwtError::Expired));
}

#[test]
fn rejects_invalid_signature() {
    let now = 1_700_000_000_i64;
    let intent_hash = "intent-signature";
    let verifier = hs256_verifier(b"secret", now);
    let token = sign_hs256("other-secret", &make_claims(intent_hash, now));

    let error = verify(&verifier, &token, intent_hash)
        .expect_err("token should fail signature validation");
    assert!(matches!(error, JwtError::InvalidToken(_)));
}

#[test]
fn rejects_intent_hash_mismatch() {
    let now = 1_700_000_000_i64;
    let verifier = hs256_verifier(b"secret", now);
    let token = sign_hs256("secret", &make_claims("expected-intent", now));

    let error = verify(&verifier, &token, "actual-intent")
        .expect_err("token should fail intent hash validation");
    assert!(matches!(error, JwtError::IntentHashMismatch));
}

#[test]
fn rejects_token_signed_with_another_algorithm() {
    let now = 1_700_000_000_i64;
    let verifier = hs256_verifier(b"secret", now);
    let token = sign(Algorithm::HS384, "secret", &make_claims("intent", now));

    let error = verifier.prepare_decode(&token).err().expect("algorithm should mismatch");
    match error {
        JwtError::AlgorithmMismatch { expected, actual } => {
            assert_eq!(expected, JwtAlgorithm::HS256);
            assert_eq!(actual, JwtAlgorithm::HS384);
        }
        other => panic!("unexpected error {other:?}"),
    }
    assert_eq!(
        JwtError::AlgorithmMismatch {
            expected: JwtAlgorithm::HS256,
            actual: JwtAlgorithm::HS384
        }
        .message(),
        "token algorithm mismatch: expected HS256, got HS384"
    );
}

#[test]
fn rejects_malformed_token() {
    let verifier = hs256_verifier(b"secret", 0);
    let error = verifier.prepare_decode("not-a-token").err().expect("malformed");
    assert!(matches!(error, JwtError::InvalidToken(_)));
    assert!(error.message().starts_with("token decoding failed: "));
}

#[test]
fn rejects_unparsable_rsa_key() {
    let now = 1_700_000_000_i64;
    let verifier = JwtVerifier::with_time_source(
        JwtKeySource::Rs256 {
            public_key_pem: Arc::<[u8]>::from(b"not a pem".to_vec()),
        },
        Arc::new(FixedTime(now)),
    );
    let token = sign(Algorithm::HS256, "secret", &make_claims("intent", now));
    // An HS256 token is refused before the key is read.
    assert!(matches!(
        verifier.prepare_decode(&token).err(),
        Some(JwtError::AlgorithmMismatch {
            expected: JwtAlgorithm::RS256,
            actual: JwtAlgorithm::HS256
        })
    ));
    // A token that names RS256 reaches the key, which does not parse.
    let header = "eyJhbGciOiJSUzI1NiIsInR5cCI6IkpXVCJ9";
    let rs_token = format!("{header}.e30.c2ln");
    let error = verifier.prepare_decode(&rs_token).err().expect("key should be invalid");
    assert!(matches!(error, JwtError::InvalidKey(_)));
    assert!(error
        .message()
        .starts_with("configured verification key is invalid: "));
}

#[test]
fn decode_request_names_required_claims() {
    let verifier = hs256_verifier(b"secret", 0);
    let token = sign_hs256("secret", &make_claims("intent", 0));
    let request = verifier.prepare_decode(&token).ok().expect("header accepted");
    assert_eq!(request.algorithm, JwtAlgorithm::HS256);
    assert_eq!(request.required_claims, vec!["exp", "iat", "sub"]);
    assert!(!request.validate_exp);
    assert_eq!(request.key_material, b"secret".to_vec());
}

#[test]
fn claim_checks_follow_their_order() {
    let now = 1_000;
    // Expired wins over every later check.
    let c = plain_claims(999, 2_000, "x", vec![]);
    assert!(matches!(check_claims(c, now, "y"), Err(JwtError::Expired)));
    // Issued in the future.
    let c = plain_claims(1_010, 1_001, "x", vec![]);
    assert!(matches!(check_claims(c, now, "y"), Err(JwtError::IssuedInFuture)));
    // Longer than sixty seconds.
    let c = plain_claims(1_030, 969, "x", vec![]);
    assert!(matches!(check_claims(c, now, "y"), Err(JwtError::TtlExceeded)));
    // Intent mismatch.
    let c = plain_claims(1_030, 970, "x", vec![]);
    assert!(matches!(check_claims(c, now, "y"), Err(JwtError::IntentHashMismatch)));
    // No permissions.
    let c = plain_claims(1_030, 970, "y", vec![]);
    assert!(matches!(check_claims(c, now, "y"), Err(JwtError::MissingPermissions)));
    // Exactly sixty seconds, expiring now: accepted.
    let c = plain_claims(1_000, 940, "y", vec!["execute"]);
    let accepted = check_claims(c.clone(), now, "y").expect("accepted");
    assert_eq!(accepted, c);
}

#[test]
fn ttl_check_does_not_overflow() {
    let c = plain_claims(i64::MAX, i64::MIN, "y", vec!["execute"]);
    assert!(matches!(check_claims(c, 0, "y"), Err(JwtError::TtlExceeded)));
}

#[test]
fn refusal_messages() {
    assert_eq!(JwtError::Expired.message(), "token is expired");
    assert_eq!(JwtError::IssuedInFuture.message(), "token issued in the future");
    assert_eq!(JwtError::TtlExceeded.message(), "token exceeded the 60 second ttl");
    assert_eq!(
        JwtError::IntentHashMismatch.message(),
        "intent_hash claim does not match request intent"
    );
    assert_eq!(
        JwtError::MissingPermissions.message(),
        "token has no permissions claim"
    );
}

#[test]
fn token_for_one_intent_is_refused_for_another() {
    let now = 1_700_000_000_i64;
    let verifier = hs256_verifier(b"secret", now);
    let token = sign_hs256("secret", &make_claims("terminate-intent", now));
    assert!(verify(&verifier, &token, "terminate-intent").is_ok());
    assert!(matches!(
        verify(&verifier, &token, "heartbeat-intent"),
        Err(JwtError::IntentHashMismatch)
    ));
}

#[test]
fn key_source_reports_its_algorithm_and_kind() {
    let hs = JwtKeySource::Hs256 {
        secret: Arc::<[u8]>::from(b"s".to_vec()),
    };
    let rs = JwtKeySource::Rs256 {
        public_key_pem: Arc::<[u8]>::from(b"p".to_vec()),
    };
    assert_eq!(hs.algorithm(), JwtAlgorithm::HS256);
    assert_eq!(rs.algorithm(), JwtAlgorithm::RS256);
    assert_eq!(hs.kind_name(), "Hs256");
    assert_eq!(rs.kind_name(), "Rs256");
    assert_eq!(JwtAlgorithm::EdDSA.name(), "EdDSA");
}

#[test]
fn system_clock_verifier_keeps_its_key() {
    let verifier = JwtVerifier::new(JwtKeySource::Hs256 {
        secret: Arc::<[u8]>::from(b"k".to_vec()),
    });
    let now = vas_crucible::sandbox::unix_now();
    let token = sign_hs256("k", &make_claims("i", now));
    assert!(verify(&verifier, &token, "i").is_ok());
}

#[test]
fn verifiers_with_agreeing_clocks_agree() {
    let now = 1_700_000_000;
    let first = hs256_verifier(b"secret", now);
    let second = hs256_verifier(b"secret", now);
    let late = hs256_verifier(b"secret", now + 120);
    let token = sign_hs256("secret", &make_claims("intent-clock", now));
    let a = verify(&first, &token, "intent-clock").map(|c| c.iat);
    let b = verify(&second, &token, "intent-clock").map(|c| c.iat);
    assert_eq!(a.ok(), Some(now));
    assert_eq!(b.ok(), Some(now));
    // Only the verifier's own clock decides: a later reading expires the token.
    assert!(matches!(verify(&late, &token, "intent-clock"), Err(JwtError::Expired)));
}

#[test]
fn claims_decoded_elsewhere_do_not_pass_a_forged_signature() {
    let now = 1_700_000_000;
    let verifier = hs256_verifier(b"secret", now);
    let forged = sign_hs256("other-secret", &make_claims("intent-forged", now));
    // Claims handed over as if decoding had succeeded.
    let claims = plain_claims(now + 45, now, "intent-forged", vec!["execute"]);
    let refused = verifier.finish_verify(&forged, Ok(claims), "intent-forged");
    assert!(matches!(refused, Err(JwtError::InvalidToken(_))));
    assert!(refused
        .err()
        .expect("refused")
        .message()
        .starts_with("token decoding failed: "));
    // The same claims under a token signed with the configured secret pass.
    let signed = sign_hs256("secret", &make_claims("intent-forged", now));
    let claims = plain_claims(now + 45, now, "intent-forged", vec!["execute"]);
    assert!(verifier.finish_verify(&signed, Ok(claims), "intent-forged").is_ok());
}

#[test]
fn cloned_verifier_keeps_key_and_clock() {
    let now = 1_700_000_000;
    let verifier = hs256_verifier(b"secret", now);
    let copy = verifier.clone();
    let token = sign_hs256("secret", &make_claims("intent-copy", now));
    assert!(verify(&copy, &token, "intent-copy").is_ok());
    let other = sign_hs256("other", &make_claims("intent-copy", now));
    assert!(matches!(verify(&copy, &other, "intent-copy"), Err(JwtError::InvalidToken(_))));
}
