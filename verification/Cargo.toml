[package]
name = "krunner_cnrtl"
version = "0.1.0"
edition = "2021"
publish = false

[dependencies]
dbus = "=0.8.4"
libdbus-sys = { version = "=0.2.7", features = ["vendored"] }
