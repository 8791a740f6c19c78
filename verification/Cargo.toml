[package]
name = "vas_crucible"
version = "0.1.0"
edition = "2021"
publish = false

[dependencies]
anyhow = "=1.0.104"
async-trait = "=0.1.92"
aya = "=0.13.1"
bollard = "=0.17.1"
futures = "=0.3.34"
jsonwebtoken = "=9.3.1"
nix = { version = "=0.29.0", features = ["term"] }
prost = "=0.13.5"
prost-types = "=0.13.5"
serde = { version = "=1.0.229", features = ["derive"] }
sha2 = "=0.10.9"
tokio = { version = "=1.54.1", features = ["full"] }
tonic = "=0.12.3"
tracing = "=0.1.44"
tracing-subscriber = { version = "=0.3.23", features = ["env-filter"] }
uuid = { version = "=1.29.0", features = ["v4"] }

[dev-dependencies]
serde_json = "=1.0.154"
tempfile = "=3.27.0"
