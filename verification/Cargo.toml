[package]
name = "cranelift_step"
version = "0.1.0"
edition = "2021"
publish = false

[dependencies]
cranelift-codegen = { version = "0.95", default-features = false, features = ["std", "unwind"] }
log = "0.4"
smallvec = "1"
thiserror = "1"
