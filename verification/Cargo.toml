[package]
name = "minijit"
version = "0.1.0"
edition = "2021"
publish = false

[dependencies]
cranelift = "0.66"
cranelift-module = "0.66"
cranelift-simplejit = "0.66"
