[package]
name = "s3_signer"
version = "0.1.0"
edition = "2021"
publish = false

[dependencies]
clap = { version = "3.2", features = ["derive", "env"] }
log = "0.4"
rusoto_core = "0.48"
rusoto_credential = "0.48"
rusoto_s3 = "0.48"
rusoto_signature = "0.48"
serde = { version = "1", features = ["derive"] }
serde_json = "1"
simple_logger = "2"
tokio = { version = "1", features = ["macros", "rt-multi-thread"] }
utoipa = "2"
utoipa-swagger-ui = "2"
warp = "0.3"
