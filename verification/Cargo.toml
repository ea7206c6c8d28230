[package]
name = "spec_forge"
version = "0.1.0"
edition = "2021"
publish = false

[dependencies]
uuid = { version = "*", features = ["v4", "serde"] }
chrono = { version = "*", features = ["serde"] }
serde = { version = "*", features = ["derive"] }
serde_json = "*"
serde_yaml = "*"
regex = "*"
handlebars = "*"
zip = "*"
quick-xml = "*"
pdf-extract = "*"
reqwest = { version = "*", default-features = false, features = ["json"] }
tokio = { version = "*", features = ["rt-multi-thread", "macros", "time", "fs", "sync"] }
anyhow = "*"
thiserror = "*"
async-trait = "*"
