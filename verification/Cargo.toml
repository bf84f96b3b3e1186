[package]
name = "slint_android"
version = "0.1.0"
edition = "2021"
publish = false

[dependencies]
jni = "0.21"
once_cell = "1"
slint = { version = "1", default-features = false, features = ["std", "compat-1-2"] }
