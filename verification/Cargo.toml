[package]
name = "dungeonctl"
version = "0.1.0"
edition = "2021"
publish = false

[dependencies]
arrayvec = "=0.7.8"
binrw = "=0.15.2"
btleplug = "=0.13.5"
# On Linux, btleplug reaches BlueZ through D-Bus; this builds the D-Bus library from source.
dbus = { version = "=0.9.12", features = ["vendored"] }
futures = "=0.3.34"
tracing = "=0.1.44"
uuid = "=1.29.0"
