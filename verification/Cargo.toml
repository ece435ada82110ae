[package]
name = "fncad"
version = "0.1.0"
edition = "2021"
publish = false

[dependencies]
anyhow = "=1.0.104"
argmin = "=0.11.0"
argmin-math = { version = "=0.5.1", features = ["nalgebra_latest"] }
cas-compute = "=0.1.0"
cas-error = "=0.1.0"
cas-parser = "=0.1.0"
crossbeam-channel = "=0.5.17"
derive-new = "=0.7.0"
eframe = { version = "=0.37.0", default-features = false, features = ["glow", "x11"] }
egui = "=0.37.0"
env_logger = { version = "=0.11.11", default-features = false }
log = "=0.4.34"
nalgebra = "=0.34.2"
