[package]
name = "odbc_bind"
version = "0.1.0"
edition = "2021"
publish = false

[dependencies]
odbc-sys = "0.8"
