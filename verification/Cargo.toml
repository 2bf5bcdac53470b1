[package]
name = "tokrizer"
version = "0.1.0"
edition = "2021"
publish = false

[dependencies]
solana-program = "=1.14.29"
spl-token = { version = "=3.5.0", default-features = false, features = ["no-entrypoint"] }
spl-associated-token-account = "1"
mpl-token-metadata = { version = "=1.6.5", default-features = false, features = ["no-entrypoint"] }
mpl-token-vault = { version = "=0.2.0", default-features = false, features = ["no-entrypoint"] }
borsh = "=0.9.3"
