[package]
name = "text_codec"
version = "0.1.0"
edition = "2021"
publish = false

[dependencies]
base64 = "0.22"
flate2 = "1"
hex = "0.4"
percent-encoding = "2"
zed_extension_api = "*"
