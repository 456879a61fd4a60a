[package]
name = "cpd"
version = "0.1.0"
edition = "2021"
publish = false

[dependencies]
nalgebra = "*"
log = "0.4"
failure = { version = "0.1", default-features = false, features = ["derive"] }

[dev-dependencies]
approx = "*"
