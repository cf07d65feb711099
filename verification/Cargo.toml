[package]
name = "kplayer"
version = "0.1.0"
edition = "2021"
publish = false

[dependencies]
url = "2"
serde_json = "1"
md5 = "0.7"
rand = "0.8"
hex = "0.4"
log = "0.4"
env_logger = "*"
dotenv = "0.15"
serde = { version = "1", features = ["derive"] }
async-trait = "0.1"
anyhow = "1"
json5 = "0.4"
tokio = { version = "1", features = ["full"] }
futures = "0.3"
uuid = "*"
strum_macros = "*"
enum-display = "*"
streamhub = "*"
rtmp = "*"
httpflv = "*"
hls = "*"
