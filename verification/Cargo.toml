[package]
name = "h2core"
version = "0.1.0"
edition = "2021"
publish = false

[dependencies]
ntex-bytes = "=1.10.0"
ntex-codec = "=1.2.1"
ntex-http = "=2.0.0"
ntex-io = "=3.9.2"
ntex-service = "=3.8.0"
ntex-util = "=3.6.1"
