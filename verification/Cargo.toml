[package]
name = "sqlbridge"
version = "0.1.0"
edition = "2021"
publish = false

[dependencies]
iron = "0.6"
log = "0.4"
logger = "*"
odbc = "*"
pretty_env_logger = "*"
serde_json = "1"
