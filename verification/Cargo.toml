[package]
name = "polonius_bridge"
version = "0.1.0"
edition = "2021"
publish = false

[dependencies]
polonius-engine = "=0.13.0"
log = "=0.4.34"
env_logger = "=0.11.11"
