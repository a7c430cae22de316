[package]
name = "amqp_json_values"
version = "0.1.0"
edition = "2021"
publish = false

[dependencies]
serde_json = "*"
amq-protocol-types = "*"
thiserror = "*"
anyhow = "*"
