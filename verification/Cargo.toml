[package]
name = "ocelotter"
version = "0.1.0"
edition = "2021"
publish = false

[dependencies]
byteorder = "=1.5.0"
regex = "1"
structopt = "=0.3.26"
zip = { version = "=0.6.6", default-features = false, features = ["deflate"] }
