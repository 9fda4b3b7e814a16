[package]
name = "gb_gba_emu"
version = "0.1.0"
edition = "2021"
publish = false

[dependencies]
minifb = "*"
rfd = "*"
rodio = "*"
