[package]
name = "turtl_core"
version = "0.1.0"
edition = "2021"
publish = false

[dependencies]
serde_json = "=1.0.151"
crossbeam = "=0.8.5"
log = "=0.4.34"
fern = "=0.7.1"
