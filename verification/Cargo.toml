[package]
name = "notify-rust"
version = "4.0.0"
edition = "2021"
publish = false

[dependencies]
dbus = { version = "0.9", features = ["vendored"] }
mac-notification-sys = "*"
winrt-notification = "*"
