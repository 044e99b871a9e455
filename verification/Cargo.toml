[package]
name = "revenant"
version = "0.1.0"
edition = "2021"
publish = false

[dependencies]
quick-xml = "=0.37.5"
regex = "=1.13.1"
aes-gcm = "=0.10.3"
base64 = "=0.22.1"
pbkdf2 = "=0.12.2"
sha2 = "=0.10.9"
serde = { version = "=1.0.229", features = ["derive"] }
serde_json = "=1.0.154"
toml = "=0.8.23"
dirs = "=5.0.1"
anyhow = "=1.0.104"
semver = "=1.0.28"
md-5 = "=0.10.6"
sha1 = "=0.10.7"
native-tls = "0.2"
