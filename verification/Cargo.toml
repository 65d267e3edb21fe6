[package]
name = "dlp"
version = "0.1.0"
edition = "2021"
publish = false

[dependencies]
borsh = { version = "=1.8.1", features = ["derive"] }
num_enum = "*"
pinocchio = "=0.9.3"
pinocchio-log = "=0.5.1"
pinocchio-pubkey = "=0.3.0"
pinocchio-system = "=0.3.0"
rkyv = "=0.7.46"
solana-curve25519 = "=2.3.13"
solana-program = "=2.3.0"
strum = { version = "*", features = ["derive"] }
thiserror = "=2.0.21"

[dev-dependencies]
rand = "=0.8.8"
