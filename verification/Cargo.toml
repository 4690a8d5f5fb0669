[package]
name = "optee_teec"
version = "0.1.0"
edition = "2021"
publish = false

[dependencies]
libc = "=0.2.190"
optee-teec-sys = { version = "=0.9.0", features = ["no_link"] }
