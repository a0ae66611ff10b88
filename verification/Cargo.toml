[package]
name = "pipeline_status"
version = "0.1.0"
edition = "2021"
publish = false

[dependencies]
chrono = { version = "0.4", features = ["serde"] }
regex = "1"
rusoto_datapipeline = "0.48"
rusoto_s3 = "0.48"
serde = "1"
serde_derive = "1"
serde_json = "1"
tokio = { version = "1", features = ["rt", "rt-multi-thread"] }
