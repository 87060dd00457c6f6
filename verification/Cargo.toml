[package]
name = "color_picker"
version = "0.1.0"
edition = "2021"
publish = false

[dependencies]
copypasta-ext = "=0.4.4"
device_query = "=0.2.8"
mouce = "=0.3.0"
termcolor = "=1.4.1"
xcap = { version = "=0.4.1", features = ["vendored"] }
