[package]
name = "ubus_gateway"
version = "0.1.0"
edition = "2021"
publish = false

[dependencies]
serde_json = "1"
rouille = "3"
ubus = "*"
