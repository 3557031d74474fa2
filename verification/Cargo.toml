[package]
name = "ukv"
version = "0.1.0"
edition = "2021"
publish = false

[dependencies]
bindgen = "0.64"
num_cpus = "1"
thiserror = "1"
