[package]
name = "quizroom"
version = "0.1.0"
edition = "2021"
publish = false

[dependencies]
actix = "0.13"
actix-files = "0.6"
actix-web = "4"
actix-ws = "0.3"
futures-util = "0.3"
rand = "0.9"
reqwest = { version = "0.12", default-features = false, features = ["rustls-tls"] }
rustrict = "0.7"
serde = { version = "1", features = ["derive"] }
serde_json = "1"
tokio = { version = "1", features = ["time"] }
