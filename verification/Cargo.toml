[package]
name = "todo_store"
version = "0.1.0"
edition = "2021"
publish = false

[dependencies]
clap = { version = "4", features = ["derive"] }
dialoguer = "0.11"
diesel = { version = "2", features = ["mysql"] }
dotenvy = "0.15"
