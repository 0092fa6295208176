[package]
name = "melia"
version = "0.1.0"
edition = "2021"
publish = false

[dependencies]
url = "2"
directories = "*"
serde = { version = "1", features = ["derive"] }
serde_json = "1"
toml = "*"
clap = { version = "4", features = ["derive", "env"] }
tokio = { version = "1", features = ["full"] }
hyper = { version = "1", features = ["full"] }
hyper-util = { version = "*", features = ["full"] }
http-body-util = "*"
bytes = "1"
crossbeam = "*"
futures = "0.3"
tokio-util = { version = "*", features = ["net"] }
tower = { version = "*", features = ["util"] }
tracing = "0.1"
tracing-subscriber = { version = "0.3", features = ["env-filter", "json"] }
time = { version = "0.3", features = ["macros", "local-offset", "formatting"] }
libc = "0.2"
systemd = "*"
