[package]
name = "surreal_bb8"
version = "0.1.0"
edition = "2021"
publish = false

[dependencies]
surrealdb = { version = "=1.0.0", default-features = false, features = ["protocol-ws"] }
bb8 = "=0.8.6"
async-trait = "*"
darling = "=0.20.3"
