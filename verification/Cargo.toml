[package]
name = "tiop01"
version = "0.1.0"
edition = "2021"
publish = false

[dependencies]
serialport = { version = "*", default-features = false }

[dev-dependencies]
byteorder = "*"
scarlet = "*"
image2 = { version = "*", default-features = false }
