[package]
name = "batch_hasher"
version = "0.1.0"
edition = "2021"
publish = false

[dependencies]
bcrypt = "*"
rayon = "*"
num_cpus = "*"
serde = { version = "*", features = ["derive"] }
lambda_runtime = "*"
tokio = { version = "*", features = ["macros", "rt-multi-thread"] }
