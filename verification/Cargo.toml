[package]
name = "rsnapp"
version = "0.1.0"
edition = "2021"
publish = false

[dependencies]
bson = "1"
base64 = "0.13"
serde = { version = "1", features = ["derive"] }
serde_json = "1"
futures = "0.3"
mongodb = "1"
reqwest = { version = "0.10", features = ["json"] }
tokio = { version = "0.2", features = ["macros", "rt-threaded"] }
async-graphql = "2"
async-graphql-actix-web = "2"
actix-web = "3"
actix-cors = "0.5"
