[package]
name = "testaustime_auth"
version = "0.1.0"
edition = "2021"
publish = false

[dependencies]
actix-web = { version = "4", default-features = false, features = ["cookies", "macros"] }
awc = { version = "3", default-features = false }
serde = "1"
serde_derive = "1"
