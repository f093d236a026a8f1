[package]
name = "scan_core"
version = "0.1.0"
edition = "2021"
publish = false

[dependencies]
log = "0.4"
notify = "4.0"
threadpool = "1.8"
walkdir = "2"
