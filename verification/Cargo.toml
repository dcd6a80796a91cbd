[package]
name = "bottom"
version = "0.1.0"
edition = "2021"
publish = false

[dependencies]
crossterm = "=0.25.0"
fxhash = "=0.2.1"
kstring = "=2.0.0"
time = "=0.3.55"
tui = { version = "=0.19.0", default-features = false }
