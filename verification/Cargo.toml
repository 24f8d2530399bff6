[package]
name = "elis_gtk"
version = "0.1.0"
edition = "2021"
publish = false

[dependencies]
gtk = "0.9"
gio = "0.9"
glib = "0.10"
pango = "0.9"
