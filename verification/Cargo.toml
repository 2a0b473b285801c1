[package]
name = "eye_in_desk_client"
version = "0.1.0"
edition = "2021"
publish = false

[dependencies]
anyhow = "1"
nalgebra = "0.33"
serde = { version = "1", features = ["derive"] }
serde_json = "1"
tokio = { version = "1", features = ["macros", "rt-multi-thread", "time"] }
tonic = "0.12"
prost = "0.13"
