[package]
name = "rwall"
version = "0.1.0"
edition = "2021"
publish = false

[dependencies]
dirs = "*"
git2 = { version = "*", default-features = false, features = ["https"] }
tauri = { version = "2", default-features = false }
urlencoding = "2"
walkdir = "2"
wallpaper = "*"
