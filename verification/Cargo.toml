[package]
name = "trafficscape"
version = "0.1.0"
edition = "2021"
publish = false

[dependencies]
cgmath = "0.18"
femtovg = "0.2"
glutin = "0.27"
thiserror = "1"
