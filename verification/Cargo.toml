[package]
name = "ssimulacra2"
version = "0.1.0"
edition = "2021"
publish = false

[dependencies]
imgref = "=1.12.3"
libblur = "*"
multiversion = "=0.9.0"
rayon = "=1.12.0"
wide = "=1.7.1"
yuvxyb = "=0.6.0"
