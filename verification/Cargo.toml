[package]
name = "robinzhon"
version = "0.1.0"
edition = "2021"
publish = false

[dependencies]
aws-config = "=1.12.0"
aws-sdk-s3 = "=1.152.0"
# aws-config 1.12 does not compile against aws-types 1.7, which it would
# otherwise be given: this holds aws-types to the 1.6 line.
aws-types = "~1.6"
futures = "=0.3.34"
pyo3 = "=0.30.1"
tokio = { version = "=1.54.1", features = ["rt-multi-thread", "fs", "io-util"] }
