[package]
name = "marc_record_nif"
version = "0.1.0"
edition = "2021"
publish = false

[dependencies]
marc-record = "*"
rustler = "*"
