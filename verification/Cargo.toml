[package]
name = "guessbot"
version = "0.1.0"
edition = "2021"
publish = false

[dependencies]
rand = "=0.8.8"
dotenv = "=0.15.0"
serenity = { version = "=0.11.7", features = ["collector"] }
tokio = { version = "=1.53.2", features = ["macros", "rt-multi-thread"] }
