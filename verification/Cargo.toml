[package]
name = "game_server"
version = "0.1.0"
edition = "2021"
publish = false

[dependencies]
actix = "0.13"
actix-http = "3"
actix-web = { version = "4", features = ["rustls"] }
actix-web-actors = "4"
actix-web-httpauth = "0.8"
anyhow = "1"
bytestring = "1"
chrono = "0.4"
chrono-english = "0.1"
dotenv = "0.15"
jsonwebtoken = "7"
log = "0.4"
rand = "0.8"
rlua = "0.17"
rlua_serde = "0.4"
rustls = "0.20"
rustls-pemfile = "1"
serde = { version = "1", features = ["derive"] }
serde_json = "1"
serde_repr = "0.1"
simple_logger = "2"
structopt = "0.3"
uuid = { version = "0.8", features = ["v4", "serde"] }
