[package]
name = "s3proxy"
version = "0.1.0"
edition = "2021"
publish = false

[dependencies]
s3s = "=0.11.1"
postgrest = "=1.6.0"
worker = { version = "=0.8.7", features = ["http"] }
serde_json = "1"
async-trait = "=0.1.92"
serde = { version = "=1.0.229", features = ["derive"] }
tracing = "=0.1.44"
http = "=1.5.0"
console_error_panic_hook = "=0.1.7"
object_store = "=0.10.2"
futures = "=0.3.34"
