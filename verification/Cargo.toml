[package]
name = "sargerust"
version = "0.1.0"
edition = "2021"
publish = false

[dependencies]
rand = "=0.9.5"
log = "=0.4.35"
chrono = "=0.4.45"
glam = "=0.34.2"
itertools = "=0.15.0"
mpq = "=0.8.1"
wow_dbc = { version = "=0.3.0", features = ["wrath"] }
wow_world_messages = { version = "=0.3.0", features = ["wrath", "sync"] }
hecs = "=0.11.2"
anyhow = "=1.0.104"
clap = { version = "=4.6.7", features = ["derive"] }
env_logger = "=0.11.11"
wow_srp = { version = "=0.7.0", features = ["wrath-header"] }
