[package]
name = "savgol-rs"
version = "0.1.0"
edition = "2021"

[dependencies]
lstsq = "=0.8.0"
nalgebra = "=0.35.0"
polyfit-rs = "=0.2.1"
