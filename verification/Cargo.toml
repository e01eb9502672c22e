[package]
name = "robot_lab"
version = "0.1.0"
edition = "2021"
publish = false

[dependencies]
rp2040-pac = { version = "=0.6.0", features = ["critical-section", "rt"] }
cortex-m = "=0.7.10"
cortex-m-rt = "=0.7.7"
rp2040-boot2 = "=0.3.0"
