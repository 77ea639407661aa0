[package]
name = "remote"
version = "0.1.0"
edition = "2021"
publish = false

[dependencies]
anyhow = "1"
async-trait = "0.1"
dirs = "*"
futures = "0.3"
rusoto_core = "0.48"
rusoto_credential = "0.48"
rusoto_ec2 = "0.48"
serde = { version = "1", features = ["derive"] }
serde_yaml = "*"
structopt = "0.3"
tokio = { version = "1", features = ["macros", "rt-multi-thread"] }
