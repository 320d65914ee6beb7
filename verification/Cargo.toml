[package]
name = "space_invaders"
version = "0.1.0"
edition = "2021"
publish = false

[dependencies]
clap = { version = "=4.4.18", features = ["derive"] }
env_logger = "=0.10.2"
log = "=0.4.34"
glfw = "=0.63.0"
rodio = "=0.17.3"
spin_sleep_util = "=0.1.1"
