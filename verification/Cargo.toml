[package]
name = "novation_remote_25sl"
version = "0.1.0"
edition = "2021"
publish = false

[dev-dependencies]
pitch_calc = "*"
