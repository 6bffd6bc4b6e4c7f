[package]
name = "wc_note"
version = "0.1.0"
edition = "2021"
publish = false

[dependencies]
html5ever = "0.27"
markup5ever = "0.12"
markup5ever_rcdom = "0.3"
json = "0.12"
httparse = "1"
regex = "1"
url = "2"
tracing = "0.1"
tracing-subscriber = "0.3"
