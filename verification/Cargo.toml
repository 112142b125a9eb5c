[package]
name = "offline-vault"
version = "0.1.0"
edition = "2021"
publish = false

[dependencies]
aes-gcm = "=0.10.3"
arboard = { version = "=3.4.1", default-features = false }
argon2 = "=0.5.3"
base64 = "=0.22.1"
egui = { version = "=0.27.2", default-features = false, features = ["default_fonts"] }
getrandom = "=0.2.17"
hkdf = "=0.12.4"
libc = "=0.2.191"
serde = { version = "=1.0.229", features = ["derive"] }
serde_json = "=1.0.154"
sha2 = "=0.10.9"
subtle = "=2.6.1"
winapi = { version = "0.3", features = ["memoryapi"] }
zeroize = "=1.9.1"
