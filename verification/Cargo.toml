[package]
name = "warpgate"
version = "0.1.0"
edition = "2021"
publish = false

[dependencies]
anyhow = "=1.0.104"
bytes = "=1.12.1"
data-encoding = "=2.11.1"
dialoguer = { version = "=0.11.0", default-features = false }
flate2 = "=1.1.10"
futures = "=0.3.34"
jsonwebtoken = "=9.3.1"
mysql_common = { version = "=0.38.2", default-features = false }
once_cell = "=1.21.4"
openidconnect = { version = "=3.5.0", default-features = false }
rustls-native-certs = "=0.6.3"
rustls-pemfile = "=1.0.4"
serde = { version = "=1.0.229", features = ["derive"] }
serde_json = { version = "=1.0.154", features = ["preserve_order"] }
stream-reconnect = "=0.3.4"
thiserror = "=1.0.69"
tokio = { version = "=1.54.1", features = ["macros", "rt-multi-thread", "net", "io-util"] }
tokio-rustls = { version = "=0.23.4", features = ["dangerous_configuration"] }
tokio-tungstenite = "=0.30.0"
tracing = "=0.1.44"
