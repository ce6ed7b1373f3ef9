[package]
name = "css_contrast"
version = "0.1.0"
edition = "2021"
publish = false

[dependencies]
cssparser = "0.32"
palette = { version = "0.7", default-features = false, features = ["std"] }
rug = { version = "1", default-features = false, features = ["float"] }
