[package]
name = "function_lifecycle"
version = "0.1.0"
edition = "2021"
publish = false

[dependencies]
actix-web = "4"
base64 = "0.21"
chrono = { version = "0.4", features = ["serde"] }
derive_more = { version = "*", features = ["as_ref", "deref", "deref_mut", "into"] }
diesel = { version = "2", features = ["postgres", "chrono"] }
log = "0.4"
serde = { version = "1", features = ["derive"] }
serde_json = "1"
strum_macros = "*"
