[package]
name = "asciivid"
version = "0.1.0"
edition = "2021"
publish = false

[dependencies]
image = "*"
imageproc = "*"
ab_glyph = "*"
rayon = "*"
