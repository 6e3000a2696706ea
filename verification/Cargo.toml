[package]
name = "genplist"
version = "0.1.0"
edition = "2021"
publish = false

[dependencies]
actix-web = { version = "4", default-features = false, features = ["macros"] }
env_logger = "*"
log = "0.4"
plist = "1"
serde = { version = "1", features = ["derive"] }
serde_json = "1"
