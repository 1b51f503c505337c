[package]
name = "conrod_thread"
version = "0.1.0"
edition = "2021"
publish = false

[dependencies]
conrod = "=0.55.1"
conrod_derive = "=0.1.2"
daggy = "=0.5.0"
find_folder = "=0.3.0"
image = "=0.25.10"
itertools = "=0.14.0"
libloading = "=0.9.0"
