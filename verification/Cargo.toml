[package]
name = "slick_ricks_luge_lounge"
version = "0.1.0"
edition = "2021"
publish = false

[dependencies]
rand = "*"
webbrowser = "*"
