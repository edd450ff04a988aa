[package]
name = "matriarch"
version = "0.1.0"
edition = "2021"
publish = false

[dependencies]
log = "=0.4.34"
nalgebra = "=0.16.14"
ncollide2d = "=0.19.2"
nphysics2d = "=0.11.1"
random_color = "=0.4.4"
serde = { version = "=1.0.229", features = ["derive"] }
