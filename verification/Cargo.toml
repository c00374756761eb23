[package]
name = "lightsync"
version = "0.1.0"
edition = "2021"
publish = false

[dependencies]
dominant_color = "*"
btleplug = "*"
scrap = "*"
uuid = "*"
futures = "*"
