[package]
name = "blueprint_icon"
version = "0.1.0"
edition = "2021"
publish = false

[dependencies]
yew = "0.17"
