[package]
name = "vector_sdk"
version = "0.1.0"
edition = "2021"
publish = false

[dependencies]
aes = "0.8"
aes-gcm = "0.10"
base64 = "0.22"
futures-util = "0.3"
generic-array = "0.14"
hex = "0.4"
log = "0.4"
magical_rs = "*"
mime_guess = "2"
nostr-blossom = "*"
nostr-sdk = { version = "*", features = ["all-nips"] }
once_cell = "1"
rand = "0.8"
reqwest = { version = "0.12", features = ["json", "multipart", "stream", "socks"] }
serde = { version = "1", features = ["derive"] }
serde_json = "1"
sha2 = "0.10"
thiserror = "1"
tokio = { version = "1", features = ["macros", "rt", "sync", "time"] }
url = "2"
