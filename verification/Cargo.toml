[package]
name = "nur"
version = "0.1.0"
edition = "2021"
publish = false

[dependencies]
nu-ansi-term = "=0.50.3"
nu-path = "=0.114.1"
nu-protocol = "=0.114.1"
nu-plugin = "=0.114.1"
miette = "=7.6.0"
thiserror = "=2.0.21"

[dev-dependencies]
tempfile = "=3.27.0"
