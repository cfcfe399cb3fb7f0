[package]
name = "store_normalize"
version = "0.1.0"
edition = "2021"
publish = false

[dependencies]
chrono = { version = "=0.4.45", default-features = false, features = ["now"] }
itertools = "=0.8.2"
regex = "=1.13.1"
url = "=2.5.2"
