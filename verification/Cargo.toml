[package]
name = "opendal"
version = "0.1.0"
edition = "2021"
publish = false

[dependencies]
anyhow = "=1.0.104"
async-trait = "=0.1.92"
backon = "=1.6.0"
http = "=1.5.0"
log = "=0.4.34"
reqsign = { version = "=0.20.7", default-features = false, features = ["azure"] }
