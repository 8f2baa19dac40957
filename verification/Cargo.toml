[package]
name = "constraint_evaluator"
version = "0.1.0"
edition = "2021"
publish = false

[dependencies]
flatzinc-serde = "=0.4.4"
log = "=0.4.35"
rand = "=0.10.3"
rand_chacha = "=0.10.0"
serde = { version = "=1.0.229", features = ["derive"] }
serde_json = "=1.0.154"
env_logger = "=0.11.11"
