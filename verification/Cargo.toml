[package]
name = "mobilefacenet"
version = "0.1.0"
edition = "2021"
publish = false

[dependencies]
burn = { version = "=0.16.1", default-features = false, features = ["std", "ndarray"] }
burn-import = { version = "0.16", default-features = false, features = ["pytorch"] }
