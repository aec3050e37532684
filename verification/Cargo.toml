[package]
name = "oauth_callback"
version = "0.1.0"
edition = "2021"
publish = false

[dependencies]
hyper = { version = "=0.8.1", default-features = false }
rustc-serialize = "=0.3.25"
time = "=0.1.45"
nickel = "=0.8.1"
nickel_postgres = "=0.2.0"
postgres = "=0.11.12"
r2d2 = "=0.7.4"
r2d2_postgres = "=0.10.1"
