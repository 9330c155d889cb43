[package]
name = "gpui_ios"
version = "0.1.0"
edition = "2021"
publish = false

[dependencies]
uuid = "=1.29.0"
log = "=0.4.35"
anyhow = "=1.0.104"
