[package]
name = "alarm-core"
version = "0.1.0"
edition = "2021"
publish = false

[dependencies]
chrono = { version = "0.4", features = ["serde"] }
uuid = { version = "1", features = ["v4", "serde"] }
serde = { version = "1", features = ["derive"] }
serde_json = "1"
anyhow = "1"
rusqlite = { version = "*", features = ["bundled"] }
directories = "*"
zbus = "5"
tokio = { version = "1", features = ["full"] }
notify-rust = "4"
rodio = "0.21"
tracing = "0.1"
tracing-appender = "0.2"
tracing-subscriber = { version = "0.3", features = ["env-filter"] }
gtk4 = "*"
libadwaita = "*"
ksni = { version = "0.3", features = ["blocking"] }
