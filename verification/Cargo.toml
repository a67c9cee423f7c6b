[package]
name = "vkrust"
version = "0.1.0"
edition = "2021"
publish = false

[dependencies]
byteorder = "1"
quick-xml = "0.22"
regex = "1"
Inflector = "0.11"
