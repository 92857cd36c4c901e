[package]
name = "scale_trainer"
version = "0.1.0"
edition = "2021"
publish = false

[dependencies]
rand = "0.8"
sycamore = { version = "*", features = ["suspense"] }
gloo-timers = { version = "*", features = ["futures"] }
web-sys = { version = "*", features = ["Window", "Document", "Element", "DomTokenList", "Event"] }
