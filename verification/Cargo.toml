[package]
name = "datafusion_fdw"
version = "0.1.0"
edition = "2021"
publish = false

[dependencies]
datafusion = { version = "=55.2.0", default-features = false }
pgrx = { version = "=0.11.4", features = ["pg16"] }
async-std = "=1.13.2"
url = "=2.5.8"
