[package]
name = "simplews"
version = "0.1.0"
edition = "2021"
publish = false

[dependencies]
anyhow = "=1.0.104"
kinode_process_lib = "=0.8.5"
serde = { version = "=1.0.229", features = ["derive"] }
serde_json = "=1.0.154"
# Nothing here calls `url`; kinode_process_lib brings it in. It is held at
# the last release that does IDNA without the ICU data crates, which keeps
# the dependency tree small.
url = "=2.5.0"
wit-bindgen = "=0.24.0"
