[package]
name = "crush"
version = "0.1.0"
edition = "2021"
publish = false

[dependencies]
crossbeam = "0.7"
rustyline = "5"
termion = "1.5"
