[package]
name = "h1_dispatch"
version = "0.1.0"
edition = "2021"
publish = false

[dependencies]
actix-codec = "0.4"
actix-router = "0.2"
actix-rt = "2"
actix-service = "2"
actix-utils = "3"
ahash = "0.7"
bitflags = "1"
bytes = "1"
cookie = "0.14"
futures-core = "0.3"
log = "0.4"
pin-project = "1"
url = "2"
