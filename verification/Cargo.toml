[package]
name = "photo_graphql"
version = "0.1.0"
edition = "2021"
publish = false

[dependencies]
actix-rt = "=1.1.1"
actix-web = "=2.0.0"
# Held back for actix-web 2.0: its HTTP layer does not build against later chrono releases.
chrono = "=0.4.19"
dotenv = "=0.15.0"
env_logger = "=0.7.1"
juniper = "=0.14.2"
serde_json = "=1.0.154"
