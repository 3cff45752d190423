[package]
name = "sheet_extract"
version = "0.1.0"
edition = "2021"
publish = false

[dependencies]
calamine = "0.18"
regex = "1"
