[package]
name = "tapsrs"
version = "0.1.0"
edition = "2021"
publish = false

[dependencies]
uuid = { version = "1", features = ["v4"] }
tokio = { version = "1", features = ["full"] }
socket2 = { version = "0.5", features = ["all"] }
log = "0.4"
env_logger = "0.11"
once_cell = "1"
libc = "0.2"
futures = "0.3"
async-trait = "0.1"
rtnetlink = "0.14"
netlink-packet-route = "0.19"
jni = "0.21"
