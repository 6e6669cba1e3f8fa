[package]
name = "notedeck_views"
version = "0.1.0"
edition = "2021"
publish = false

[dependencies]
egui = "*"
nostrdb = "*"
open = "*"
