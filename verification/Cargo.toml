[package]
name = "iceberg_core"
version = "0.1.0"
edition = "2021"
publish = false

[dependencies]
apache-avro = "*"
uuid = { version = "*", features = ["v4"] }
serde = { version = "*", features = ["derive"] }
serde_bytes = "*"
serde_repr = "*"
serde_json = "*"
object_store = "*"
anyhow = "*"
async-trait = "*"
