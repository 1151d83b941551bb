[package]
name = "vuho_ui"
version = "0.1.0"
edition = "2021"
publish = false

[dependencies]
crossbeam-channel = "0.5"
log = "0.4"
env_logger = "0.11"
fastrand = "2"
raw-window-handle = "0.6"
dispatch2 = "0.3"
objc2 = "0.6"
objc2-foundation = "0.3"
objc2-app-kit = "0.3"
objc2-core-graphics = "0.3"
