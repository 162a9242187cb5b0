[package]
name = "fireup"
version = "0.1.0"
edition = "2021"
publish = false

[dependencies]
actix-web = { version = "4", default-features = false, features = ["macros"] }
anyhow = "1"
chrono = { version = "0.4", features = ["serde"] }
clap = "4"
dirs = "5"
env_logger = "0.11"
glob = "0.3"
libc = "0.2"
names = { version = "=0.14.0", default-features = false }
num_cpus = "=1.17.0"
owo-colors = "4"
rand = "=0.8.8"
regex = "=1.13.1"
rumqttc = { version = "0.24", default-features = false }
serde = { version = "1", features = ["derive"] }
serde_json = "=1.0.154"
sha2 = "=0.10.9"
sqlx = { version = "0.8", default-features = false, features = ["sqlite", "runtime-tokio", "derive", "chrono"] }
tokio = { version = "1", features = ["rt-multi-thread", "macros", "time"] }
tokio-stream = "0.1"
toml = "0.8"
utoipa = { version = "6", features = ["actix_extras"] }
utoipa-actix-web = "0.2"
utoipa-rapidoc = { version = "7", features = ["actix-web"] }
utoipa-swagger-ui = { version = "10", features = ["actix-web", "vendored"] }
xid = "=1.1.1"
