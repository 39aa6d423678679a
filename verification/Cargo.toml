[package]
name = "slurm_default_account"
version = "0.1.0"
edition = "2021"
publish = false

[dependencies]
nix = { version = "*", features = ["user"] }
serde_json = "*"
