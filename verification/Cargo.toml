[package]
name = "frame_os"
version = "0.1.0"
edition = "2021"
publish = false

[dependencies]
crossbeam-queue = "*"
pc-keyboard = "*"
futures-util = "*"
spin = "*"
lazy_static = "*"
conquer-once = "*"
volatile = "*"
x86_64 = "*"
