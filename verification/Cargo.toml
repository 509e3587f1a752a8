[package]
name = "python_plusplus"
version = "0.1.0"
edition = "2021"
publish = false

[dependencies]
anyhow = "=1.0.104"
dirs = "=5.0.1"
fs-err = "=2.11.0"
libc = "=0.2.191"
libloading = "=0.8.9"
ruff_python_formatter = "=0.0.8"
tempfile = "=3.27.0"
thiserror = "=1.0.69"
tracing = "=0.1.44"
widestring = "=1.2.1"
