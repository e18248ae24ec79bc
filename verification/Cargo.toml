[package]
name = "chippy"
version = "0.1.0"
edition = "2021"
publish = false

[dependencies]
fixedbitset = "0.4"
fastrand = "2"
byteorder = "1"
thiserror = "1"
anyhow = "1"
clap = { version = "4", features = ["derive"] }
macroquad = "0.3"
