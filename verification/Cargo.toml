[package]
name = "wm"
version = "0.1.0"
edition = "2021"
publish = false

[dependencies]
indexmap = "*"
log = "*"
log4rs = "*"
dirs = "*"
serde = { version = "1", features = ["derive"] }
toml = "*"
thiserror = "*"
x11 = { version = "*", features = ["xlib", "xft"] }
x11rb = "*"
bytemuck = "*"
strum = { version = "*", features = ["derive"] }
num-traits = "*"
bitflags = "*"
derivative = "*"
