[package]
name = "webbundle"
version = "0.1.0"
edition = "2021"
publish = false

[dependencies]
headers = "0.3"
http = "0.2"
log = "0.4"
mime_guess = "2"
pathdiff = "0.2"
url = "2"
walkdir = "2"
