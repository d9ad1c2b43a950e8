[package]
name = "pallet_books"
version = "0.1.0"
edition = "2021"
publish = false

[dependencies]
frame-support = "*"
frame-system = "*"
scale-info = "*"
parity-scale-codec = "*"
bounded-collections = "*"
sp-weights = "*"
sp-runtime = "*"
