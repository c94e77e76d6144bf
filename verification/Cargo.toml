[package]
name = "egui_styled"
version = "0.6.0"
edition = "2021"
publish = false

[dependencies]
egui = "0.34"
