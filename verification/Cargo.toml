[package]
name = "seeker"
version = "0.1.0"
edition = "2021"
publish = false

[dependencies]
async-std = "1"
clap = "2"
signal-hook = "0.1"
tracing = "0.1"
tracing-futures = "0.2"
tracing-subscriber = "0.2"
