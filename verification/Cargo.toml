[package]
name = "image_processor"
version = "0.1.0"
edition = "2021"
publish = false

[dependencies]
aws-config = { version = "=1.12.0", features = ["behavior-version-latest"] }
aws-sdk-dynamodb = "=1.131.0"
aws-sdk-rekognition = "=1.118.0"
aws-sdk-s3 = "=1.152.0"
# The shared configuration's type. Held to the 1.6 line: aws-config 1.12
# does not compile against aws-types 1.7.
aws-types = "=1.6.0"
lambda_runtime = "=1.5.0"
serde = { version = "=1.0.229", features = ["derive"] }
serde_json = "=1.0.154"
tokio = { version = "=1.54.1", features = ["macros", "rt-multi-thread", "sync"] }
tracing = "=0.1.44"
tracing-subscriber = "=0.3.23"
