[package]
name = "polyview"
version = "0.1.0"
edition = "2021"
publish = false

[dependencies]
ndarray = "*"
bio = "*"
clap = "*"
libnotcurses-sys = "*"
