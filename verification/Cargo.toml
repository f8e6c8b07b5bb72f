[package]
name = "borg_vinculum"
version = "0.1.0"
edition = "2021"
publish = false

[dependencies]
argon2 = "=0.5.3"
base64 = "0.22"
borgbackup = { version = "=0.10.1", features = ["tokio"] }
byte-unit = "4"
clap = { version = "4", features = ["derive"] }
env_logger = "0.10"
log = "0.4"
rand = "=0.8.8"
reqwest = { version = "0.11", default-features = false, features = ["json"] }
rpassword = "7"
serde = { version = "1", features = ["derive"] }
serde_json = "1"
shlex = "=1.3.0"
ssh-key = { version = "0.6", features = ["ed25519"] }
tokio = { version = "1", features = ["macros", "process", "rt", "sync", "time", "io-util"] }
toml = "0.8"
url = "2"
