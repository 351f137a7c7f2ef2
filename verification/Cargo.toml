[package]
name = "mkpub"
version = "0.1.0"
edition = "2021"
publish = false

[dependencies]
aws-config = "=1.12.0"
aws-sdk-s3 = "=1.152.0"
# aws-config 1.12.0 does not compile against a later aws-types.
aws-types = "=1.6.0"
clap = { version = "4", features = ["derive"] }
directories = "5"
miette = "5"
mime_guess = "=2.0.5"
rhai = "=1.27.0"
serde = { version = "1", features = ["derive"] }
thiserror = "1"
tokio = { version = "1", features = ["macros", "rt"] }
toml = "0.7"
tracing = "0.1"
tracing-subscriber = { version = "0.3", features = ["env-filter"] }
url = { version = "=2.5.8", features = ["serde"] }
