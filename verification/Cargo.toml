[package]
name = "text-cleaner"
version = "0.1.0"
edition = "2021"
publish = false

[dependencies]
anyhow = "=1.0.104"
diacritics = "=0.2.2"
hashbrown = "=0.17.1"
linkify = "=0.11.0"
log = "=0.4.34"
regex = "=1.13.1"
regex-syntax = "=0.8.11"
unicode-normalization = "=0.1.26"
web-sys = { version = "=0.3.106", features = ["HtmlInputElement", "HtmlTextAreaElement"] }
yew = "=0.19.3"
yew-router = "=0.16.0"
