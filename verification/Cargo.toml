[package]
name = "pos_inventory"
version = "0.1.0"
edition = "2021"
publish = false

[dependencies]
actix-web = "4"
bcrypt = "*"
chrono = { version = "0.4", features = ["serde"] }
futures = "0.3"
serde = { version = "1", features = ["derive"] }
serde_json = "1"
simple_pdf_generator = "*"
simple_pdf_generator_derive = "*"
tokio = { version = "1", features = ["full"] }
tokio-postgres = { version = "0.7", features = ["with-chrono-0_4"] }
