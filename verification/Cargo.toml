[package]
name = "database_url"
version = "0.1.0"
edition = "2021"
publish = false

[dependencies]
dotenv = "=0.15.0"
config = { version = "=0.15.27", default-features = false }

[dev-dependencies]
temp-env = "=0.3.6"
