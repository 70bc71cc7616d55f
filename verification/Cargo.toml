[package]
name = "libclang_wrapper"
version = "0.1.0"
edition = "2021"
publish = false

[dependencies]
clang-sys = { version = "=1.9.1", features = ["runtime", "clang_3_9"] }
libc = "=0.2.190"
serde_json = "=1.0.151"
threadpool = "=1.8.1"
