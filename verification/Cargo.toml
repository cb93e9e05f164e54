[package]
name = "rustfetch"
version = "0.1.0"
edition = "2021"
publish = false

[dependencies]
os_info = "*"
owo-colors = "*"
regex = "*"
sysinfo = "*"
which = "*"
whoami = "*"
