[package]
name = "exec_time"
version = "0.1.6"
edition = "2021"
publish = false

[dependencies]
darling = "0.20"
syn = { version = "2", features = ["full"] }
quote = "1"
proc-macro2 = "1"
