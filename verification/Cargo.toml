[package]
name = "markup_tokenizer"
version = "0.1.0"
edition = "2021"
publish = false

[dependencies]
phf = { version = "0.11", features = ["macros"] }
