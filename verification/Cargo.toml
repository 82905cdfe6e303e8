[package]
name = "zeus_media"
version = "0.1.0"
edition = "2021"
publish = false

[dependencies]
num_cpus = "=1.17.0"
pinyin = "=0.11.0"
crossbeam-channel = "=0.5.17"
which = "*"
