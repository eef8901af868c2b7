[package]
name = "heap_visualizer"
version = "0.1.0"
edition = "2021"
publish = false

[dependencies]
quicksilver = { version = "0.3", default-features = false, features = ["fonts"] }
stdweb = "0.4"
