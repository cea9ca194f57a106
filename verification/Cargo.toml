[package]
name = "editor"
version = "0.1.0"
edition = "2021"
publish = false

[dependencies]
iced = { version = "=0.13.1", default-features = false, features = ["tiny-skia", "fira-sans", "highlighter", "advanced"] }
rfd = "=0.15.4"
