[package]
name = "msgflo"
version = "0.1.0"
edition = "2021"
publish = false

[dependencies]
rand = "0.4"
amqp = { version = "*", default-features = false }
argparse = "*"
rustc-serialize = "*"
