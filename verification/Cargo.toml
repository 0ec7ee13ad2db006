[package]
name = "texicon_demo"
version = "0.1.0"
edition = "2021"
publish = false

[dependencies]
egui = { version = "=0.29.1", default-features = false, features = ["default_fonts"] }
egui-themes = "=0.1.2"
egui-widget-texicon = "=0.1.0"
smallvec = "*"
