[package]
name = "connected_home"
version = "0.1.0"
edition = "2021"
publish = false

[dependencies]
base64 = "0.13"
bcrypt = "*"
sha2 = "*"
magic-crypt = "*"
rand = "0.8"
chrono = "*"
serde = { version = "*", features = ["derive"] }
serde_json = "*"
regex = "*"
qstring = "*"
actix-web = "*"
reqwest = { version = "*", default-features = false, features = ["blocking", "json"] }
