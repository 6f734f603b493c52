[package]
name = "hpke_dispatch"
version = "0.1.0"
edition = "2021"
publish = false

[dependencies]
hpke = { version = "=0.14.1", default-features = false, features = ["alloc", "getrandom", "aes", "chacha", "x25519", "nistp"] }
rand = "=0.10.3"
serde = { version = "=1.0.229", features = ["derive"] }
zeroize = { version = "=1.9.1", features = ["derive"] }

[dev-dependencies]
hex = "=0.4.3"
