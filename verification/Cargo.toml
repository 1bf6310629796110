[package]
name = "doip_client"
version = "0.1.0"
edition = "2021"
publish = false

[dependencies]
josekit = "=0.10.3"
serde ={ version = "*", features = ["derive"] }
serde_json = "*"
display_json = "*"
colored = "*"
hex_color = "*"
miette = { version = "*", features = ["fancy"] }
reqwest = "*"
thiserror = "*"
tokio = { version = "*", features = ["macros", "rt-multi-thread"] }
futures = "*"
clap = { version = "*", features = ["derive"] }
sequoia-openpgp = { version = "*", default-features = false, features = ["crypto-rust", "allow-experimental-crypto", "allow-variable-time-crypto"] }

[dev-dependencies]
base64 = "*"
