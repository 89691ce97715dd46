[package]
name = "cxx_qt_gen"
version = "0.1.0"
edition = "2021"
publish = false

[dependencies]
quote = "1"
syn = { version = "=2.0.119", features = ["full"] }
