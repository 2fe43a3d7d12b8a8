[package]
name = "ticktock"
version = "0.8.0"
edition = "2021"
publish = false

[dependencies]
time = "0.1"
