[package]
name = "gb_core"
version = "0.1.0"
edition = "2021"
publish = false

[dependencies]
sdl2 = { version = "=0.34.5", features = ["image"] }
imgui = "=0.0.21"
imgui_file_explorer = "=0.0.3"
