[package]
name = "quartz"
version = "0.1.0"
edition = "2021"
publish = false

[dependencies]
iced = { version = "=0.14.0", default-features = false, features = ["tiny-skia", "x11", "tokio"] }
iced_aw = { version = "=0.14.1", default-features = false, features = ["tab_bar"] }
portable-pty = "=0.9.0"
rfd = { version = "=0.15.4", default-features = false, features = ["xdg-portal", "tokio"] }
