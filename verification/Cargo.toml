[package]
name = "tabbed_rs"
version = "0.1.0"
edition = "2021"
publish = false

[dependencies]
x11rb = "*"
x11rb-protocol = "*"
cairo-rs = "*"
clap = { version = "*", features = ["derive"] }
clap-num = "*"
figment = { version = "*", features = ["toml"] }
fork = "*"
nonempty = "*"
serde = { version = "*", features = ["derive"] }
lazy_static = "*"
