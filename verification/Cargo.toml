[package]
name = "druidaw"
version = "0.1.0"
edition = "2021"
publish = false

[dependencies]
crossbeam-channel = "=0.5.17"
druid = "=0.5.0"
hound = "=3.5.1"
jack = "0.11"
log = "=0.4.34"
