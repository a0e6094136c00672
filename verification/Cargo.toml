[package]
name = "loft_profiles"
version = "0.1.0"
edition = "2021"
publish = false

[dependencies]
csgrs = { version = "*", default-features = false, features = ["f64", "stl-io"] }
nalgebra = "0.33"
