[package]
name = "mas_handlers"
version = "0.1.0"
edition = "2021"
publish = false

[dependencies]
anyhow = "=1.0.104"
async-trait = "=0.1.92"
axum = { version = "=0.8.9", default-features = false, features = ["form", "query", "json", "tokio"] }
axum-extra = { version = "=0.10.3", default-features = false, features = ["typed-header"] }
chrono = { version = "=0.4.45", default-features = false, features = ["std", "clock"] }
headers = "=0.4.2"
hyper = "=1.12.0"
lettre = { version = "=0.11.23", default-features = false, features = ["builder"] }
minijinja = { version = "=2.24.0", default-features = false, features = ["adjacent_loop_items", "builtins", "debug", "deserialization", "internal_safe_search", "serde", "std_collections"] }
rand = "=0.8.8"
rand_core = "=0.6.4"
sentry = { version = "=0.36.0", default-features = false }
serde = { version = "=1.0.229", features = ["derive"] }
serde_json = "=1.0.154"
tracing = "=0.1.44"
ulid = "=1.2.1"
url = "=2.5.8"
webauthn_rp = { version = "=0.2.7", features = ["bin", "serde_relaxed", "serializable_server_state"] }
zeroize = "=1.9.1"
