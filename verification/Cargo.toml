[package]
name = "image_filter"
version = "0.1.0"
edition = "2021"
publish = false

[dependencies]
anyhow = "1"
cliclack = "*"
console = "*"
ctrlc = "*"
tokio = { version = "1", default-features = false, features = ["rt-multi-thread"] }
image = { version = "*", default-features = false, features = ["png", "jpeg"] }
