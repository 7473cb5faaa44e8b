[package]
name = "robot_core"
version = "0.1.0"
edition = "2021"
publish = false

[dependencies]
adafruit_motorkit = "=0.2.0"
async-signal = "=0.2.14"
clap = { version = "=4.6.7", features = ["derive"] }
env_logger = "=0.11.11"
eyre = "=0.6.14"
futures-lite = "=2.6.1"
linux-embedded-hal = "=0.4.1"
log = "=0.4.34"
pwm-pca9685 = "=1.0.0"
scopeguard = "=1.2.0"
smol = "=2.0.2"
