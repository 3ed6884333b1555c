[package]
name = "sysinfo_applet"
version = "0.1.0"
edition = "2021"
publish = false

[dependencies]
backoff = "=0.4.0"
sysinfo = "=0.37.2"
tracing = "=0.1.44"
