[package]
name = "cat_conformance"
version = "0.1.0"
edition = "2021"
publish = false

[dependencies]
anyhow = "1"
clap = { version = "4", features = ["derive"] }
nix = { version = "0.29", features = ["fs"] }
rand = "0.8"
tempfile = "3"
walkdir = "2"
which = "6"
