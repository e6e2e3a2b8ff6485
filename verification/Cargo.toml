[package]
name = "topic_service"
version = "0.1.0"
edition = "2021"
publish = false

[dependencies]
uuid = { version = "1", features = ["v4", "serde"] }
serde = { version = "1", features = ["derive"] }
actix-web = { version = "4", default-features = false }
utoipa = { version = "3", features = ["actix_extras", "uuid"] }
