[package]
name = "ctx"
version = "0.1.0"
edition = "2021"

[dependencies]
crossterm = "*"
r256 = "*"
