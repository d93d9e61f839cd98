[package]
name = "gguf_engine"
version = "0.1.0"
edition = "2021"
publish = false

[dependencies]
base64 = "*"
llama-cpp-2 = "*"
