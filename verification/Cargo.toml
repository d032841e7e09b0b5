[package]
name = "sample_parser"
version = "0.1.0"
edition = "2021"
publish = false

[dependencies]
llguidance = "*"
toktrie = "*"
toktrie_hf_tokenizers = "*"
serde = { version = "*", features = ["derive"] }
serde_json = "*"
anyhow = "*"
referencing = "*"
clap = { version = "*", features = ["derive"] }
