[package]
name = "googlesheets"
version = "0.1.0"
edition = "2021"
publish = false

[dependencies]
reqwest = { version = "=0.13.5", default-features = false, features = ["json", "query"] }
serde = { version = "=1.0.229", features = ["derive"] }
snafu = "=0.9.2"
yup-oauth2 = "=12.1.2"
