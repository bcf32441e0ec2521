[package]
name = "autopy"
version = "0.1.0"
edition = "2021"
publish = false

[dependencies]
autopilot = "0.4"
either = "1"
image = "0.22"
libc = "0.2"
pyo3 = "*"
