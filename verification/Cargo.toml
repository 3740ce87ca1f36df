[package]
name = "getters2"
version = "0.1.0"
edition = "2021"
publish = false

[dependencies]
darling = "0.20"
proc-macro2 = "1"
proc-macro-error = "1"
quote = "1"
syn = { version = "2", features = ["full"] }
