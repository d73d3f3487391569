[package]
name = "rkt_sidecar"
version = "0.1.0"
edition = "2021"
publish = false

[dependencies]
rustracing = "*"
rustracing_jaeger = "*"
signal-hook = "*"
