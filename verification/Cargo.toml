[package]
name = "parquet_dict_rewrite"
version = "0.1.0"
edition = "2021"
publish = false

[dependencies]
arrow = "*"
parquet = { version = "*", features = ["arrow"] }
bytes = "*"
clap = "*"
