[package]
name = "send-to-goodnotes"
version = "0.1.0"
edition = "2021"
publish = false

[dependencies]
aes-gcm = "=0.10.3"
base64 = "=0.22.1"
dirs = "=5.0.1"
iced = { version = "=0.13.1", default-features = false, features = ["advanced"] }
lettre = "=0.11.23"
rfd = { version = "=0.15.4", default-features = false, features = ["xdg-portal", "tokio"] }
serde = { version = "=1.0.229", features = ["derive"] }
serde_json = "=1.0.154"
thiserror = "=1.0.69"
whoami = "=1.6.1"
