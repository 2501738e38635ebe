[package]
name = "ascii_cube"
version = "0.1.0"
edition = "2021"
publish = false

[dependencies]
ringbuffer = "*"
clap = { version = "*", features = ["derive"] }
crossterm = "*"
tokio = { version = "*", features = ["rt-multi-thread", "macros", "sync", "time"] }
