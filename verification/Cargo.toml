[package]
name = "gamepad_engine"
version = "0.1.0"
edition = "2021"
publish = false

[dependencies]
gilrs = "=0.11.2"
uinput = { version = "=0.1.3", default-features = false }
