[package]
name = "http_socks5_proxy"
version = "0.1.0"
edition = "2021"
publish = false

[dependencies]
async-socks5 = "=0.6.0"
hyper = { version = "=0.14.32", features = ["full"] }
hyper-socks2 = { version = "=0.8.0", default-features = false }
log = "=0.4.34"
log4rs = "=1.4.0"
tokio = { version = "=1.54.1", features = ["rt", "rt-multi-thread", "net", "io-util", "macros"] }
