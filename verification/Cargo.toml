[package]
name = "overlay_core"
version = "0.1.0"
edition = "2021"
publish = false

[dependencies]
bincode = "=1.3.3"
blsttc = "=4.0.0"
color-eyre = "=0.6.5"
ed25519-dalek = "=1.0.1"
hex = "=0.4.3"
log = "=0.4.34"
pickledb = { version = "=0.5.1", features = ["bincode"] }
rand = "=0.7.3"
serde = { version = "=1.0.229", features = ["derive"] }
sodiumoxide = "=0.2.7"
structopt = "=0.3.26"
tokio = { version = "=1.54.1", features = ["sync", "time"] }
tracing = "=0.1.44"
unwrap = "=1.2.1"

[dev-dependencies]
kademlia_routing_table = "=0.6.0"
