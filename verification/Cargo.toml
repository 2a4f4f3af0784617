[package]
name = "syserve"
version = "0.1.0"
edition = "2021"
publish = false

[dependencies]
httparse = "*"
argparse = "*"
env_logger = "*"
log = "*"
threadpool = "*"
