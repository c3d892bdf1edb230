[package]
name = "selinux"
version = "0.1.0"
edition = "2021"
publish = false

[dependencies]
bitflags = "=1.3.2"
libc = "=0.2.191"
once_cell = "=1.21.4"
selinux-sys = "=0.7.1"
thiserror = "=1.0.69"
