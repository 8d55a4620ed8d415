[package]
name = "native_greeting"
version = "0.1.0"
edition = "2021"
publish = false

[dependencies]
jni = "0.21"

[dev-dependencies]
jni = { version = "0.21", features = ["invocation"] }
