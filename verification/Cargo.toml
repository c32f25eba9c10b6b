[package]
name = "nbodies"
version = "0.1.0"
edition = "2021"
publish = false

[dependencies]
rand = "0.7"
serde = { version = "1", features = ["derive"] }
serde_json = "1"
getopts = "0.2"
piston = "*"
piston_window = "*"
find_folder = "0.3"
geomath = "0.2"
