[package]
name = "servo_ui"
version = "0.1.0"
edition = "2021"
publish = false

[dependencies]
app_units = "0.7"
headers = "0.4"
keyboard-types = "0.8"
html5ever = "*"
markup5ever = "*"
stylo_atoms = "*"
