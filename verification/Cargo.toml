[package]
name = "openapi_core"
version = "0.1.0"
edition = "2021"
publish = false

[dependencies]
regex = "*"
opentelemetry = "*"
opentelemetry-http = "*"
opentelemetry-semantic-conventions = "*"
headers = "*"
async-trait = "*"
