[package]
name = "maze"
version = "0.1.0"
edition = "2021"
publish = false

[dependencies]
halo2curves = "*"
sha3 = "*"
anyhow = "*"
serde = { version = "*", features = ["derive"] }
serde_json = "*"
rand = "*"
rand_chacha = "*"
colored = "*"
itertools = "*"
