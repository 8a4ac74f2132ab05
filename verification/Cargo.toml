[package]
name = "nanai-intel-gna-monitor"
version = "0.1.0"
edition = "2021"
publish = false
