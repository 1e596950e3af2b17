[package]
name = "araki"
version = "0.1.0"
edition = "2021"
publish = false

[dependencies]
uuid = { version = "*", features = ["v4"] }
clap = { version = "*", features = ["derive"] }
git2 = { version = "*", default-features = false }
reqwest = { version = "*", default-features = false, features = ["json"] }
tokio = { version = "*", features = ["macros", "rt", "rt-multi-thread", "time"] }
serde = { version = "*", features = ["derive"] }
serde_json = "*"
config = "*"
console = "*"
directories = "*"
async-trait = "*"
