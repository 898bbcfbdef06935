[package]
name = "gustasum"
version = "0.1.0"
edition = "2021"
publish = false

[dependencies]
sha2 = "0.10"
atty = "0.2"
clap = "4"
indicatif = "0.17"
rayon = "1"
walkdir = "2"
