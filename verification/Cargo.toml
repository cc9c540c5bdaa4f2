[package]
name = "hierarbus"
version = "0.1.0"
edition = "2021"
publish = false

[dependencies]
spin = "=0.5.2"
lazy_static = "=1.5.1"
riscv = "=0.6.0"
log = "=0.4.35"
device_tree = "=1.1.0"
smoltcp = { version = "=0.6.0", default-features = false, features = ["std", "proto-ipv4", "socket-raw", "socket-udp", "socket-tcp"] }
