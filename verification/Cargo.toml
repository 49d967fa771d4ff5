[package]
name = "delta_lake_connector"
version = "0.1.0"
edition = "2021"
publish = false

[dependencies]
url = "*"
aws-config = "*"
aws-sdk-sts = "*"
tokio = { version = "*", features = ["macros", "rt-multi-thread"] }
