[package]
name = "saltwater"
version = "0.1.0"
edition = "2021"
publish = false

[dependencies]
cranelift = "=0.133.3"
cranelift-codegen = "=0.133.3"
hexponent = "=0.3.1"
thiserror = "=1.0.69"
