[package]
name = "gatt_server"
version = "0.1.0"
edition = "2021"
publish = false

[dependencies]
tokio = { version = "=1.53.2", features = ["sync", "net", "io-util", "rt", "macros"] }
uuid = { version = "=1.27.0", features = ["v4"] }
dbus = { version = "=0.9.12", features = ["vendored", "futures"] }
dbus-crossroads = "=0.5.3"
futures = "=0.3.34"
