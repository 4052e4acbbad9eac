[package]
name = "minecraft_parser"
version = "0.1.0"
edition = "2021"
publish = false

[dependencies]
bytes = "1"
thiserror = "1"
libfuzzer-sys = "0.4"
