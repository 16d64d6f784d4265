[package]
name = "loss_tester_rs"
version = "0.1.0"
edition = "2021"
publish = false

[dependencies]
anyhow = "1"
clap = { version = "4", features = ["derive"] }
cobs = "0.2"
ctrlc = "3"
net2 = "0.2"
smol = "2"
spin_sleep = "1"
thiserror = "1"
