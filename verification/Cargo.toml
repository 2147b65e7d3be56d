[package]
name = "telegrand"
version = "0.1.0"
edition = "2021"
publish = false

[dependencies]
gtk4 = "*"
libadwaita = "*"
glib = "*"
once_cell = "1"
