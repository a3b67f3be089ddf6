[package]
name = "pm1_control_model"
version = "0.1.0"
edition = "2021"
publish = false

[dependencies]
fixed = "1"
cordic = "0.1"
nalgebra = "0.33"
