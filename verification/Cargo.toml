[package]
name = "smart_meter_backend"
version = "0.1.0"
edition = "2021"
publish = false

[dependencies]
argon2 = "=0.5.3"
password-hash = { version = "=0.5.0", features = ["getrandom"] }
uuid = { version = "=1.29.0", features = ["v4"] }
chrono = "=0.4.45"
actix-web = { version = "=4.18.1", features = ["openssl"] }
actix-cors = "=0.7.2"
diesel = { version = "=2.3.14", features = ["sqlite", "r2d2"] }
dotenvy = "=0.15.7"
log = "=0.4.35"
log4rs = "=1.4.0"
openssl = "=0.10.82"
reqwest = "=0.11.27"
serde = { version = "=1.0.229", features = ["derive"] }
