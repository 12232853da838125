[package]
name = "jni_method_cache"
version = "0.1.0"
edition = "2021"
publish = false

[dependencies]
crossbeam-channel = "0.5"
jni = "0.21"
kanal = "*"
parking_lot = "0.12"

[dev-dependencies]
jni = { version = "0.21", features = ["invocation"] }
