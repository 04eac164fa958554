[package]
name = "textedit"
version = "0.1.0"
edition = "2021"
publish = false

[dependencies]
font-kit = "=0.6.0"
pathfinder_canvas = { version = "=0.5.0", features = ["pf-text"] }
pathfinder_color = "=0.5.0"
pathfinder_geometry = "=0.5.1"
pathfinder_gl = "=0.5.0"
pathfinder_renderer = "=0.5.0"
spin_sleep = "=1.3.3"
