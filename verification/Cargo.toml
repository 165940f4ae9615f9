[package]
name = "termsfx"
version = "0.1.0"
edition = "2021"
publish = false

[dependencies]
clap = "4"
config = { version = "0.14", default-features = false, features = ["json"] }
daemonize = "0.5"
dirs = "5"
notify = "6"
regex = "1"
serde = { version = "1", features = ["derive"] }
sysinfo = { version = "0.32", default-features = false, features = ["system"] }
thiserror = "1"
tokio = { version = "1", features = ["rt-multi-thread", "net", "io-util"] }

[dev-dependencies]
bincode = "1"
