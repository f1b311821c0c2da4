[package]
name = "oxen_files"
version = "0.1.0"
edition = "2021"
publish = false

[dependencies]
actix-multipart = { version = "0.7", default-features = false }
actix-web = { version = "4", default-features = false }
async-trait = "0.1"
clap = "4"
futures-util = "0.3"
log = "0.4"
sanitize-filename = "*"
serde = { version = "1", features = ["derive"] }
serde_json = "1"
tokio = { version = "1", features = ["fs", "io-util"] }
tokio-util = { version = "0.7", features = ["io"] }
url = "2"
utoipa = { version = "5", features = ["actix_extras"] }
uuid = { version = "1", features = ["v4"] }
