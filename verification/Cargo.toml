[package]
name = "orbi_helpers"
version = "0.1.0"
edition = "2021"
publish = false

[dependencies]
comfy-table = { version = "=8.0.1", default-features = false }
directories = "=6.0.0"
reqwest = { version = "=0.13.5", default-features = false }
tokio = { version = "=1.53.2", features = ["rt-multi-thread", "macros", "fs"] }
warp = { version = "=0.4.3", features = ["server"] }
clap = { version = "=4.6.7", features = ["derive"] }
env_logger = "=0.11.11"
log = "=0.4.34"
mime = "=0.3.17"

[dev-dependencies]
serde_json = "=1.0.151"
toml = "=1.1.7"
