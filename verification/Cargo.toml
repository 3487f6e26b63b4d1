[package]
name = "properwatcher"
version = "0.1.0"
edition = "2021"
publish = false

[dependencies]
async-trait = "0.1"
chrono = "=0.4.45"
config = { version = "0.10", default-features = false, features = ["toml"] }
csv = "1"
encoding_rs = "=0.8.42"
firestore-db-and-auth = "0.6"
futures = "0.3"
kuchiki = "=0.8.1"
lambda_runtime = "0.2"
lettre = "0.9"
lettre_email = "0.9"
num-format = "=0.4.4"
regex = "=1.13.1"
reqwest = { version = "0.10", features = ["blocking", "json"] }
rusoto_core = "0.45"
rusoto_dynamodb = "0.45"
serde = { version = "1", features = ["derive"] }
serde_derive = "1"
serde_dynamodb = "0.6"
serde_json = "1"
tokio = { version = "0.2", features = ["macros", "rt-threaded", "time"] }
url = "=2.5.8"
