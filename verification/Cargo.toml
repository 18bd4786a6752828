[package]
name = "butlerbot"
version = "0.1.0"
edition = "2021"
publish = false

[dependencies]
anyhow = "=1.0.104"
dptree = "=0.1.2"
log = "=0.4.34"
# The logger that teloxide's applications set up.
pretty_env_logger = "0.4"
reqwest = { version = "=0.11.27", features = ["json"] }
serde = { version = "=1.0.229", features = ["derive"] }
# Not used directly. teloxide-core 0.4 takes any 0.1 release, and 0.1.2
# needs a newer compiler than the rest of the tree.
takecell = "=0.1.1"
teloxide = { version = "=0.7.3", features = ["macros", "auto-send"] }
tokio = { version = "=1.54.1", features = ["rt-multi-thread", "macros"] }
# Not used directly. teloxide-core 0.4 uses the codec module without
# asking for the feature that holds it.
tokio-util = { version = "=0.6.10", features = ["codec"] }
