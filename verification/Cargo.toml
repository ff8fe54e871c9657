[package]
name = "homie"
version = "0.1.0"
edition = "2021"
publish = false

[dependencies]
fastrand = "2"
image = { version = "0.25", default-features = false, features = ["gif"] }
clap = { version = "4", features = ["derive"] }
confy = "0.6"
serde = "1"
serde_derive = "1"
thiserror = "1"
regex-lite = "0.1"
gtk4 = { version = "0.9", features = ["v4_12"] }
gdk4 = "0.9"
gtk4-layer-shell = "0.4"
