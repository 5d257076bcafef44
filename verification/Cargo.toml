[package]
name = "thruster-auth"
version = "0.1.0"
edition = "2021"
publish = false

[dependencies]
async-trait = "=0.1.92"
chrono = "=0.4.45"
deadpool-postgres = "=0.14.2"
paste = "=1.0.15"
serde = { version = "=1.0.229", features = ["derive"] }
thruster = "=1.3.13"
tokio-postgres = { version = "=0.7.18", features = ["with-uuid-1", "with-chrono-0_4"] }
usual = { version = "=0.1.2", features = ["tokio-postgres"] }
uuid = "=1.29.0"
