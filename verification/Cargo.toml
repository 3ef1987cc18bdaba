[package]
name = "nys_iam"
version = "0.1.0"
edition = "2021"
publish = false

[dependencies]
bcrypt = "*"
uuid = { version = "*", features = ["v4"] }
rocket = { version = "*", features = ["json"] }
redis = "*"
aws-sdk-dynamodb = "*"
aws-types = "*"
serde = { version = "*", features = ["derive"] }
serde_json = "*"
