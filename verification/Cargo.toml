[package]
name = "serialport"
version = "0.1.0"
edition = "2021"
publish = false

[dependencies]
nix = "0.26"
termios = "0.3"
ioctl-rs = "0.1"
libudev = "0.2"
