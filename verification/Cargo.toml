[package]
name = "poc_game"
version = "0.1.0"
edition = "2021"
publish = false

[dependencies]
actix-rt = "*"
actix-web = { version = "*", default-features = false }
serde = { version = "*", features = ["derive"] }
surf = { version = "*", default-features = false, features = ["h1-client-rustls"] }
