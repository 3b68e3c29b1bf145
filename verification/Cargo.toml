[package]
name = "openai_rs"
version = "0.1.0"
edition = "2021"
publish = false

[dependencies]
serde_json = "*"
serde = { version = "*", features = ["derive"] }
reqwest = { version = "*", default-features = false }
tokio = { version = "*", features = ["macros", "rt", "process"] }
clap = { version = "*", features = ["derive"] }
confy = "*"
rpassword = "*"
owo-colors = "*"
