[package]
name = "control_panel"
version = "0.1.0"
edition = "2021"
publish = false

[dependencies]
conrod_core = "*"
conrod_piston = "*"
piston_window = "0.120"
