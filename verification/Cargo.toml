[package]
name = "goxkey"
version = "0.1.0"
edition = "2021"
publish = false

[dependencies]
vi = "=0.6.2"
log = "=0.4.34"
env_logger = "=0.10.2"
once_cell = "=1.21.4"
druid = "=0.8.3"
