[package]
name = "mirtal"
version = "0.3.1"
edition = "2021"
publish = false

[dependencies]
thiserror = "2"
syn = { version = "2", features = ["full"] }
quote = "1"
proc-macro2 = "1"
