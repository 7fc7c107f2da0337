[package]
name = "btrfsutil"
version = "0.1.0"
edition = "2021"
publish = false

[dependencies]
btrfsutil-sys = "*"
chrono = "*"
libc = "*"

[dev-dependencies]
uuid = "*"
