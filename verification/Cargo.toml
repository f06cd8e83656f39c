[package]
name = "monitor_switch"
version = "0.1.0"
edition = "2021"

[dependencies]
anyhow = "=1.0.104"
argh = "=0.1.19"
ddc-hi = { version = "=0.4.1", default-features = false }
mccs-db = "=0.1.3"
