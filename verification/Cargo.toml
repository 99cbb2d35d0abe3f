[package]
name = "map_err"
version = "0.1.0"
edition = "2021"
publish = false

[dependencies]
futures = "0.1"
h2 = "0.1"
http = "0.1"
tower = "0.1"
