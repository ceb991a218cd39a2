[package]
name = "mech_driver"
version = "0.1.0"
edition = "2021"
publish = false

[dependencies]
rand = "*"
nalgebra = "*"
tokio = { version = "*", features = ["macros", "rt-multi-thread", "time"] }
serde = { version = "*", features = ["derive"] }
log = "*"
env_logger = "*"
md5 = "*"
