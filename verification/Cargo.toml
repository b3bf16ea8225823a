[package]
name = "rustjerkbot"
version = "0.1.0"
edition = "2021"
publish = false

[dependencies]
rand = "=0.10.3"
liquid = "=0.26.11"
sedregex = "=0.2.5"
kstring = "=2.0.2"
