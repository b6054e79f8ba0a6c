[package]
name = "geom_kernel"
version = "0.1.0"
edition = "2021"
publish = false

[dependencies]
approx = "0.5"
bytemuck = { version = "1", features = ["derive"] }
cblas = "0.4"
lapacke = "0.5"

[dev-dependencies]
quickcheck = { version = "1", default-features = false }
