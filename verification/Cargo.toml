[package]
name = "aloha"
version = "0.1.0"
edition = "2021"
publish = false

[dependencies]
owo-colors = "4"
ctrlc = "3"
