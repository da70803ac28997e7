[package]
name = "romio"
version = "0.1.0"
edition = "2021"
publish = false

[dependencies]
futures = "0.3"
mio = "0.6"
mio-uds = "0.6"
