[package]
name = "axfs_devfs"
version = "0.1.0"
edition = "2021"
publish = false

[dependencies]
axfs_vfs = "*"
