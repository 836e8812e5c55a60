[package]
name = "otterc"
version = "0.1.0"
edition = "2021"
publish = false

[dependencies]
sha1 = "*"
rustc_apfloat = "*"
once_cell = "*"
parking_lot = "*"
