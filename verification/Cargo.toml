[package]
name = "magic"
version = "0.1.0"
edition = "2021"
publish = false

[dependencies]
yansi = "0.5"
lalrpop-util = { version = "0.20", features = ["lexer"] }
clap = { version = "4", features = ["derive"] }
