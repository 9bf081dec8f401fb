[package]
name = "qir_translator"
version = "0.1.0"
edition = "2021"
publish = false

[dependencies]
qasm = "=1.0.0"
