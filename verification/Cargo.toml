[package]
name = "drone"
version = "0.1.0"
edition = "2021"
publish = false

[dependencies]
anyhow = "=1.0.104"
drone-config = "=0.14.0"
handlebars = "=6.4.4"
serde_json = "=1.0.154"
tempfile = "=3.27.0"
