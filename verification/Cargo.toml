[package]
name = "winctl"
version = "0.1.0"
edition = "2021"
publish = false

[dependencies]
regex = "1"
structopt = "0.3"
x11 = { version = "2", features = ["xlib"] }
