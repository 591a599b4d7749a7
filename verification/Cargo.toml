[package]
name = "homesec"
version = "0.1.0"
edition = "2021"
publish = false

[dependencies]
rustix = { version = "*", features = ["fs", "mount", "process", "thread", "termios", "stdio"] }
uuid = { version = "*", features = ["v4"] }
home = "*"
xdg = "*"
argh = "*"
