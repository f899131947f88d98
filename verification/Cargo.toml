[package]
name = "axiom_proxy"
version = "0.1.0"
edition = "2021"
publish = false

[dependencies]
hex = "=0.4.3"
sha2 = "=0.10.9"
hkdf = "=0.12.4"
chacha20poly1305 = "=0.10.1"
aes-gcm = "=0.10.3"
curve25519-dalek = "=4.1.3"
ed25519-dalek = "=2.2.0"
x25519-dalek = { version = "=2.0.1", features = ["static_secrets"] }
rand_core = { version = "=0.6.4", features = ["getrandom"] }
base64 = "=0.22.1"
x509-parser = "=0.16.0"
semver = "=1.0.28"
serde = { version = "=1.0.229", features = ["derive"] }
serde_json = "=1.0.154"
tempfile = "=3.27.0"
directories = "=5.0.1"
jsonc-parser = { version = "=0.26.3", features = ["cst"] }
axum = "=0.8.9"
tokio = { version = "=1.54.1", features = ["full"] }
tokio-util = "=0.7.20"
tower-http = { version = "=0.6.11", features = ["cors"] }
reqwest = { version = "=0.12.28", default-features = false, features = ["json", "stream", "rustls-tls"] }
eventsource-stream = "=0.2.3"
futures-util = "=0.3.34"
async-stream = "=0.3.6"
uuid = { version = "=1.29.0", features = ["v4"] }
tracing = "=0.1.44"
tracing-subscriber = { version = "=0.3.23", features = ["env-filter"] }
clap = { version = "=4.6.7", features = ["derive"] }
dcap-qvl = "*"
