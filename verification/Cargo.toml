[package]
name = "place_geometry"
version = "0.1.0"
edition = "2021"
publish = false

[dependencies]
geo = "0.28"
geojson = "0.24"
wkb = "0.7"
serde_json = "1"
serde = { version = "1", features = ["derive"] }
serde_yaml = "0.9"
reqwest = { version = "0.11", default-features = false, features = ["rustls-tls"] }
tokio = { version = "1", features = ["rt-multi-thread", "macros", "fs"] }
sqlx = { version = "0.7", default-features = false, features = ["postgres", "runtime-tokio-rustls"] }
sea-query = "0.30"
dotenv = "0.15"
anyhow = "1"
async-trait = "0.1"
futures = "0.3"
