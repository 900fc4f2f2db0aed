[package]
name = "terradrift"
version = "0.1.0"
edition = "2021"
publish = false

[dependencies]
anyhow = "1"
async-trait = "0.1"
aws-config = "=1.12.0"
aws-sdk-s3 = "=1.152.0"
aws-types = "=1.6.0"
azure_storage = "=0.20.0"
azure_storage_blobs = "=0.20.0"
clap = { version = "4", features = ["derive"] }
clap_mangen = "0.2"
dirs = "5"
futures = "0.3"
futures-util = "0.3"
gcp_auth = "=0.12.7"
num_cpus = "=1.17.0"
percent-encoding = "=2.3.2"
reqwest = { version = "=0.12.28", default-features = false, features = ["json", "rustls-tls"] }
serde = { version = "1", features = ["derive"] }
serde_json = "=1.0.154"
tabled = "=0.15.0"
tokio = { version = "1", features = ["full"] }
toml = "0.8"
uuid = { version = "=1.29.0", features = ["v4"] }
which = "6"
zip = { version = "=0.6.6", default-features = false, features = ["deflate"] }
