[package]
name = "bladerf_power"
version = "0.1.0"
edition = "2021"
publish = false

[dependencies]
clap = { version = "4", features = ["derive", "env"] }
ctrlc = "3"
exitcode = "1"
rustfft = "6"
tracing = "0.1"
tracing-subscriber = { version = "0.3", features = ["env-filter"] }
