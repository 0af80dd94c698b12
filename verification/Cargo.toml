[package]
name = "rgb_pwm"
version = "0.1.0"
edition = "2021"
publish = false

[dependencies]
embassy-executor = { version = "=0.5.1", features = ["arch-std", "executor-thread", "integrated-timers"] }
embassy-futures = "=0.1.2"
embassy-sync = { version = "=0.5.0", features = ["std"] }
embassy-time = "=0.3.2"
microbit-bsp = "=0.3.0"
num-traits = { version = "=0.2.19", default-features = false }
panic-rtt-target = "=0.1.3"
rtt-target = "=0.5.0"
