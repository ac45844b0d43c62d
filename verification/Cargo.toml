[package]
name = "eclipse_input"
version = "0.1.0"
edition = "2021"
publish = false

[dependencies]
conquer-once = "0.4"
crossbeam-queue = "0.3"
futures-util = "0.3"
pc-keyboard = "0.7"
