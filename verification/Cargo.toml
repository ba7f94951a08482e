[package]
name = "artifact_mover"
version = "0.1.0"
edition = "2021"
publish = false

[dependencies]
anyhow = "=1.0.104"
aws-config = "=1.6.3"
aws-sdk-s3 = "=1.152.0"
clap = { version = "=4.6.7", features = ["derive"] }
libcramjam = { version = "=0.9.3", default-features = false, features = ["zstd"] }
md5 = "=0.7.0"
tar = "=0.4.46"
tokio = { version = "=1.54.1", features = ["full"] }
