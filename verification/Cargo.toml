[package]
name = "neo_api_rs"
version = "0.1.0"
edition = "2021"
publish = false

[dependencies]
async-trait = "0.1"
convert_case = "0.6"
mlua = { version = "0.9", features = ["lua54", "module", "async", "serialize"] }
once_cell = "1"
serde = { version = "1", features = ["derive"] }
sqlx = { version = "0.8", default-features = false, features = ["runtime-tokio", "sqlite"] }
tokio = { version = "1", features = ["full"] }
