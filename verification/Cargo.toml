[package]
name = "curve_lending_bot"
version = "0.1.0"
edition = "2021"
publish = false

[dependencies]
cosmwasm-std = "1.5"
cw2 = "1.1"
cw-storage-plus = "1.2"
ethabi = "18.0"
schemars = "0.8"
serde = { version = "1.0", default-features = false, features = ["derive"] }
