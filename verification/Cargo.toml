[package]
name = "bounded_rect"
version = "0.1.0"
edition = "2021"
publish = false

[dependencies]
crossterm = "*"
