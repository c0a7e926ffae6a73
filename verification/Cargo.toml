[package]
name = "magic_regexp"
version = "0.2.3"
edition = "2021"
publish = false

[dependencies]
regex = "1"
thiserror = "1"
