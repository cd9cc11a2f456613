[package]
name = "dlr_pst_sim"
version = "0.1.0"
edition = "2021"
publish = false

[dependencies]
embassy-net = { version = "=0.7.1", features = ["tcp", "proto-ipv4", "medium-ethernet"] }
embassy-time = "=0.5.1"
embedded-hal = "=1.0.0"
heapless = "=0.8.0"
rust-mqtt = { version = "=0.3.1", default-features = false }
