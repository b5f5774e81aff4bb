[package]
name = "yajvm"
version = "0.1.0"
edition = "2021"
publish = false

[dependencies]
classfile-parser = "=0.3.8"
bitflags = "=2.13.2"
