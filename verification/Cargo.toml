[package]
name = "bidi_browser"
version = "0.1.0"
edition = "2021"
publish = false

[dependencies]
log = "*"
thiserror = "*"
tokio = { version = "*", features = ["time"] }
webdriverbidi = "*"
