[package]
name = "jsonb_envelope"
version = "0.1.0"
edition = "2021"
publish = false

[dependencies]
diesel = { version = "2", default-features = false, features = ["postgres_backend"] }
heck = "0.5"
proc-macro2 = "1"
quote = "1"
serde = "1"
serde_json = "1"
syn = "2"
