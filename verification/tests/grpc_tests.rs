use std::sync::Arc;

use jsonwebtoken::{encode, Algorithm, DecodingKey, EncodingKey, Header, Validation};
use serde_json::Value;

type JsonObject = serde_json::Map<String, Value>;
use vas_crucible::grpc::server::{
    authorize_create, authorize_execute, authorize_heartbeat, authorize_terminate, confirm,
    create_intent_hash, execute_intent_hash, hash_payload, heartbeat_intent_hash,
    internal_status, map_limits, terminate_intent_hash, Authorization, ResourceLimits,
    SandboxOperation, ServiceError,
};
use vas_crucible::jwt::checker::{JwtKeySource, JwtVerifier, TimeSource};
use vas_crucible::jwt::claims::Claims;
use vas_crucible::sandbox::limits::ResourceLimitConfig;

struct FixedTime(i64);

impl TimeSource for FixedTime {
    fn now(&self) -> i64 {
        self.0
    }
}

const NOW: i64 = 1_700_000_000;

fn test_verifier() -> JwtVerifier<FixedTime> {
    JwtVerifier::with_time_source(
        JwtKeySource::Hs256 {
            secret: Arc::<[u8]>::from(b"grpc-secret".to_vec()),
        },
        Arc::new(FixedTime(NOW)),
    )
}

fn token(intent_hash: &str) -> String {
    let mut claims = JsonObject::new();
    claims.insert("sub".to_string(), Value::from("agent-1"));
    claims.insert("exp".to_string(), Value::from(NOW + 45));
    claims.insert("iat".to_string(), Value::from(NOW));
    claims.insert("intent_hash".to_string(), Value::from(intent_hash));
    claims.insert(
        "permissions".to_string(),
        Value::Array(vec![Value::from("execute")]),
    );
    encode(
        &Header::new(Algorithm::HS256),
        &claims,
        &EncodingKey::from_secret(b"grpc-secret"),
    )
    .expect("sign")
}

fn decode(authorization: &Authorization, jwt: &str) -> Result<Claims, jsonwebtoken::errors::Error> {
    let mut validation = Validation::new(Algorithm::HS256);
    validation.validate_exp = authorization.decode().validate_exp;
    validation.required_spec_claims = authorization
        .decode()
        .required_claims
        .iter()
        .cloned()
        .collect();
    let key = DecodingKey::from_secret(&authorization.decode().key_material);
    jsonwebtoken::decode::<JsonObject>(jwt, &key, &validation).map(
        |data| Claims {
            sub: data.claims["sub"].as_str().unwrap().to_string(),
            exp: data.claims["exp"].as_i64().unwrap(),
            iat: data.claims["iat"].as_i64().unwrap(),
            intent_hash: data.claims["intent_hash"].as_str().unwrap().to_string(),
            permissions: data.claims["permissions"]
                .as_array()
                .unwrap()
                .iter()
                .map(|p| p.as_str().unwrap().to_string())
                .collect(),
        },
    )
}

#[test]
fn intent_hashes_are_sha256_of_their_payloads() {
    assert_eq!(
        terminate_intent_hash("sandbox-1"),
        "1b092393d6aeecb02dffdc01ca0a6843848ff7267722a0d1c345ca5c729577c0"
    );
    assert_eq!(
        heartbeat_intent_hash("sandbox-1"),
        "702014a9205488ab7738c95095d08cfef030a109fe49c8414d1933f79df3a9c6"
    );
    assert_eq!(
        create_intent_hash("agent-1", &ResourceLimitConfig::default()),
        "75ef3c264a8829e6c9ee23a5a126b881ea75b3ace8c8ee3e0630286f96e0a60f"
    );
    assert_eq!(
        execute_intent_hash("sb-1", "bash", "printf hi"),
        "e5229ae7873d78ad9d2838fbf9f0491827283252b8640220deea7a1a259c80a7"
    );
    let odd = ResourceLimitConfig {
        cpu_cores: -3,
        memory_mb: i64::MIN,
        network_enabled: true,
    };
    assert_eq!(
        create_intent_hash("agent-1", &odd),
        "5770650df1a33082fb34f76d5eca57ae25046cb52bec990176158b8b5d3d2456"
    );
    assert_eq!(
        hash_payload("terminate:sandbox-1"),
        terminate_intent_hash("sandbox-1")
    );
}

#[test]
fn missing_limits_get_the_defaults() {
    assert_eq!(map_limits(None), Ok(ResourceLimitConfig::default()));
    let asked = ResourceLimits {
        cpu_cores: 1,
        memory_mb: 256,
        network_enabled: true,
    };
    assert_eq!(
        map_limits(Some(asked)),
        Ok(ResourceLimitConfig {
            cpu_cores: 1,
            memory_mb: 256,
            network_enabled: true
        })
    );
    let too_big = ResourceLimits {
        cpu_cores: 4,
        memory_mb: 256,
        network_enabled: false,
    };
    assert_eq!(
        map_limits(Some(too_big)),
        Err(ServiceError::Internal(
            "cpu_cores must be between 1 and 1".to_string()
        ))
    );
    assert_eq!(
        internal_status("boom".to_string()),
        ServiceError::Internal("boom".to_string())
    );
}

#[test]
fn create_request_with_wrong_intent_is_refused() {
    let v = test_verifier();
    let jwt = token("whatever");
    let refused = authorize_create(&v, "agent-1", &jwt, "not-the-hash", None, "/ws");
    assert!(matches!(
        refused,
        Err(ServiceError::PermissionDenied(ref m)) if m == "request intent hash mismatch"
    ));
    let bad_limits = ResourceLimits {
        cpu_cores: 1,
        memory_mb: 4096,
        network_enabled: false,
    };
    let refused = authorize_create(&v, "agent-1", &jwt, "not-the-hash", Some(bad_limits), "/ws");
    assert!(matches!(
        refused,
        Err(ServiceError::Internal(ref m)) if m == "memory_mb must be between 1 and 512"
    ));
}

#[test]
fn create_request_is_authorised_end_to_end() {
    let v = test_verifier();
    let limits = ResourceLimits {
        cpu_cores: 1,
        memory_mb: 512,
        network_enabled: false,
    };
    let intent = create_intent_hash("agent-1", &ResourceLimitConfig::default());
    let jwt = token(&intent);
    let authorization = authorize_create(&v, "agent-1", &jwt, &intent, Some(limits), "/ws")
        .ok()
        .expect("authorised");
    assert_eq!(authorization.intent_hash(), intent);
    assert_eq!(authorization.decode().key_material, b"grpc-secret".to_vec());
    match authorization.operation() {
        SandboxOperation::Create(config) => {
            assert_eq!(config.agent_id, "agent-1");
            assert_eq!(config.limits, ResourceLimitConfig::default());
            assert_eq!(config.workspace_dir, "/ws");
        }
        other => panic!("unexpected operation {other:?}"),
    }
    let decoded = decode(&authorization, &jwt);
    let confirmed = confirm(&v, authorization, decoded).ok().expect("confirmed");
    assert_eq!(confirmed.claims().sub, "agent-1");
    assert!(matches!(
        confirmed.operation(),
        SandboxOperation::Create(config) if config.agent_id == "agent-1"
    ));
}

#[test]
fn token_for_one_operation_cannot_serve_another() {
    let v = test_verifier();
    let jwt = token(&terminate_intent_hash("sandbox-1"));
    let heartbeat = authorize_heartbeat(&v, "sandbox-1", &jwt).ok().expect("header ok");
    let decoded = decode(&heartbeat, &jwt);
    assert!(matches!(
        confirm(&v, heartbeat, decoded),
        Err(ServiceError::PermissionDenied(ref m))
            if m == "intent_hash claim does not match request intent"
    ));
    let terminate = authorize_terminate(&v, "sandbox-1", &jwt).ok().expect("header ok");
    let decoded = decode(&terminate, &jwt);
    let confirmed = confirm(&v, terminate, decoded).ok().expect("confirmed");
    assert!(matches!(
        confirmed.operation(),
        SandboxOperation::Terminate { sandbox_id } if sandbox_id == "sandbox-1"
    ));
}

#[test]
fn forged_tokens_are_refused() {
    let v = test_verifier();
    let intent = execute_intent_hash("sandbox-1", "bash", "ls");
    let execute = authorize_execute(&v, "sandbox-1", "bash", "ls", "garbage")
        .err()
        .expect("malformed token");
    assert!(matches!(
        execute,
        ServiceError::PermissionDenied(ref m) if m.starts_with("token decoding failed: ")
    ));
    let other_key = encode(
        &Header::new(Algorithm::HS256),
        &JsonObject::new(),
        &EncodingKey::from_secret(b"other"),
    )
    .unwrap();
    let auth = authorize_execute(&v, "sandbox-1", "bash", "ls", &other_key)
        .ok()
        .expect("header ok");
    assert_eq!(auth.intent_hash(), intent);
    let decoded = decode(&auth, &other_key);
    assert!(matches!(
        confirm(&v, auth, decoded),
        Err(ServiceError::PermissionDenied(ref m)) if m.starts_with("token decoding failed: ")
    ));
}

#[test]
fn intent_hashes_are_sixty_four_lowercase_hex_digits() {
    let hashes = [
        create_intent_hash("agent-1", &ResourceLimitConfig::default()),
        execute_intent_hash("sb-1", "python", "print(1)"),
        terminate_intent_hash("sb-1"),
        heartbeat_intent_hash("sb-1"),
        hash_payload(""),
    ];
    for h in hashes.iter() {
        assert_eq!(h.len(), 64);
        assert!(h.chars().all(|c| c.is_ascii_digit() || ('a'..='f').contains(&c)));
    }
}

#[test]
fn execute_intents_differ_per_request() {
    let base = execute_intent_hash("sb-1", "bash", "ls");
    assert_ne!(base, execute_intent_hash("sb-2", "bash", "ls"));
    assert_ne!(base, execute_intent_hash("sb-1", "python", "ls"));
    assert_ne!(base, execute_intent_hash("sb-1", "bash", "ls -l"));
    assert_ne!(terminate_intent_hash("sb-1"), heartbeat_intent_hash("sb-1"));
    assert_ne!(terminate_intent_hash("sb-1"), terminate_intent_hash("sb-2"));
}

#[test]
fn execute_operation_carries_the_request() {
    let v = test_verifier();
    let intent = execute_intent_hash("sandbox-9", "python", "print(2)");
    let jwt = token(&intent);
    let auth = authorize_execute(&v, "sandbox-9", "python", "print(2)", &jwt)
        .ok()
        .expect("header ok");
    assert!(!auth.decode().validate_exp);
    let decoded = decode(&auth, &jwt);
    let confirmed = confirm(&v, auth, decoded).ok().expect("confirmed");
    match confirmed.into_operation() {
        SandboxOperation::Execute { sandbox_id, language, code } => {
            assert_eq!(sandbox_id, "sandbox-9");
            assert_eq!(language, "python");
            assert_eq!(code, "print(2)");
        }
        other => panic!("unexpected operation {other:?}"),
    }
}
