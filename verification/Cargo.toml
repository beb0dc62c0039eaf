[package]
name = "pg_temporal"
version = "0.1.0"
edition = "2021"
publish = false

[dependencies]
bytes = "1"
jiff = "0.1"
postgres-protocol = "0.6"
