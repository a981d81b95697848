[package]
name = "ergo_fs"
version = "0.1.0"
edition = "2021"
publish = false

[dependencies]
path_abs = "=0.4.1"
std_prelude = "=0.2.12"
tar = "=0.4.46"
tempdir = "=0.3.7"
walkdir = "=2.5.0"

[dev-dependencies]
symlink = "=0.1.0"
