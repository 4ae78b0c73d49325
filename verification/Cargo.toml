[package]
name = "building_rendering"
version = "0.1.0"
edition = "2021"
publish = false

[dependencies]
compact = "=0.2.15"
compact_macros = "=0.1.0"
descartes = "=0.1.20"
imgui = "=0.0.18"
kay = "=0.3.2"
