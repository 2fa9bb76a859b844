[package]
name = "noronha"
version = "0.1.0"
edition = "2021"
publish = false

[dependencies]
im = { version = "15", features = ["serde"] }
uuid = { version = "1", features = ["v4", "serde"] }
serde = { version = "1", features = ["derive"] }
serde_json = "1"
actix-web = { version = "4", default-features = false }
reqwest = { version = "0.12", default-features = false, features = ["blocking", "json"] }
crossbeam-channel = "0.5"
signal-hook = "0.3"
config = { version = "0.14", default-features = false, features = ["toml"] }
log = "0.4"
log4rs = "1"
libc = "0.2"
