[package]
name = "profiler"
version = "0.1.0"
edition = "2021"
publish = false

[dependencies]
loupe = "0.1"
walrus = "0.19"
wasmer = "2"
wasmer-types = "2"
wasmer-vm = "2"
