[package]
name = "chess"
version = "0.1.0"
edition = "2021"
publish = false

[dependencies]
cozy-chess = "0.3"
rand = "0.8"
vampirc-uci = "0.11"
log = "0.4"
simplelog = "0.12"
