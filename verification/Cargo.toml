[package]
name = "exif_mtime"
version = "0.2.0"
edition = "2021"
publish = false

[dependencies]
clap = "2"
filetime = "0.2"
humantime = "*"
rayon = "1"
regex = "1"
rexif = "*"
walkdir = "2"
