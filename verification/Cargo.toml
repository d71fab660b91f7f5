[package]
name = "hello_services"
version = "0.1.0"
edition = "2021"
publish = false

[dependencies]
clap = { version = "4", features = ["derive"] }
env_logger = "0.11"
log = "0.4"
prost = "0.13"
tokio = { version = "1", features = ["macros", "net", "rt-multi-thread", "time"] }
tonic = "0.12"
