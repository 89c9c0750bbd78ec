[package]
name = "wally"
version = "0.1.0"
edition = "2021"
publish = false

[dependencies]
rand = "0.7"
reqwest = { version = "0.12", features = ["blocking", "json"] }
serde = { version = "1", features = ["derive"] }
serde_derive = "1"
structopt = "0.3"
url = "2"
