[package]
name = "cloud_orchestration"
version = "0.1.0"
edition = "2021"
publish = false

[dependencies]
anyhow = "1"
reqwest = { version = "0.11", default-features = false, features = ["blocking"] }
rusoto_autoscaling = { version = "0.48", default-features = false, features = ["rustls"] }
rusoto_core = { version = "0.48", default-features = false, features = ["rustls"] }
rusoto_ec2 = { version = "0.48", default-features = false, features = ["rustls"] }
rusoto_ecr = { version = "0.48", default-features = false, features = ["rustls"] }
rusoto_ecs = { version = "0.48", default-features = false, features = ["rustls"] }
rusoto_s3 = { version = "0.48", default-features = false, features = ["rustls"] }
rusoto_sts = { version = "0.48", default-features = false, features = ["rustls"] }
tokio = { version = "1", features = ["rt"] }
