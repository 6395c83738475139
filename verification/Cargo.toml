[package]
name = "squirrel_rs"
version = "0.1.0"
edition = "2021"
publish = false

[dependencies]
half = "*"
memmap2 = "*"
num_enum = "*"
rayon = "*"
strum = { version = "*", features = ["derive"] }
tokenizers = "*"
