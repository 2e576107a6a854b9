[package]
name = "surface_handoff"
version = "0.1.0"
edition = "2021"
publish = false

[dependencies]
cssparser = "0.29"
app_units = "0.7"
euclid = "0.22"
