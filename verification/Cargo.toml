[package]
name = "intl_format"
version = "0.1.0"
edition = "2021"
publish = false

[dependencies]
fixed_decimal = "=0.7.3"
writeable = "=0.6.4"
icu = { version = "=2.4.0", features = ["unstable"] }
