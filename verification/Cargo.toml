[package]
name = "garmin_client"
version = "0.1.0"
edition = "2021"
publish = false

[dependencies]
serde_json = "=1.0.151"
zip = "=8.6.0"
reqwest = { version = "0.12", features = ["cookies", "json", "stream"] }
reqwest-oauth1 = "=0.3.0"
tokio = { version = "1", features = ["full"] }
chrono = "0.4"
config = "*"
getopts = "*"
log = "0.4"
log4rs = "*"
anyhow = "1"
serde = { version = "1", features = ["derive"] }
serde_derive = "1"
futures = "0.3"
async-recursion = "*"
influxdb2 = "*"
fitparser = "*"
regex = "1"
cognito_srp = "*"
