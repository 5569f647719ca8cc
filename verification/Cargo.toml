[package]
name = "term"
version = "0.1.0"
edition = "2021"
publish = false

[dependencies]
vte = "0.3"
unicode-segmentation = "1"
unicode-width = "0.1"
