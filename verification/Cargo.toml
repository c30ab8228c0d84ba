[package]
name = "los"
version = "0.1.0"
edition = "2021"
publish = false

[dependencies]
image = { version = "=0.25.10", default-features = false, features = ["png"] }
anyhow = "=1.0.104"
clap = { version = "=4.6.7", features = ["derive"] }
thiserror = "=2.0.21"
home = "=0.5.12"
terminal_size = "=0.4.4"
postcard = { version = "=1.1.3", features = ["alloc"] }
serde = { version = "=1.0.229", features = ["derive"] }
csv = "=1.4.0"
rusqlite = { version = "=0.41.1", features = ["bundled"] }
ureq = "=3.5.1"
zip = "=9.2.2"
geotiff = "=0.1.0"
geo-types = "=0.7.20"
gdal = "=0.19.0"
axum = "0.8"
tokio = { version = "1", features = ["macros", "rt-multi-thread", "net"] }
tower-http = { version = "0.6", features = ["fs"] }
