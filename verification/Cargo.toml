[package]
name = "neocrystal"
version = "0.1.0"
edition = "2021"
publish = false

[dependencies]
glob = "*"
home = "*"
id3 = "*"
mp3-duration = "*"
pancurses = "*"
rand = "*"
rodio = "*"
unicode-segmentation = "*"
unicode-width = "*"
