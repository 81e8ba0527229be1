[package]
name = "datalith"
version = "0.1.0"
edition = "2021"
publish = false

[dependencies]
anyhow = "1"
byte-unit = "5"
chrono = "0.4"
clap = { version = "4", features = ["derive", "env"] }
fs4 = { version = "*", features = ["tokio"] }
image-convert = "*"
magic = "*"
mime = "0.3"
mime_guess = "2"
num_cpus = "1"
rand = "0.9"
rdb-pagination = { version = "*", features = ["sqlite", "derive"] }
rocket = { version = "0.5", features = ["uuid"] }
rocket-cache-response = "*"
rocket-etag-if-none-match = "*"
rocket-multipart-form-data = "*"
serde_json = "1"
sha2 = "0.10"
sqlx = { version = "0.8", features = ["sqlite", "runtime-tokio", "uuid"] }
terminal_size = "*"
tokio = { version = "1", features = ["full"] }
tokio-cron-scheduler = "*"
tracing = "0.1"
trim-in-place = "*"
url-escape = "*"
uuid = { version = "1", features = ["v4"] }
validators = { version = "*", features = ["derive", "boolean", "rocket"] }
