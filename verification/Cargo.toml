[package]
name = "centaureissi"
version = "0.1.0"
edition = "2021"
publish = false

[dependencies]
argon2 = { version = "=0.5.3", features = ["std"] }
axum = { version = "=0.8.9", features = ["multipart"] }
blake2 = "=0.10.6"
chrono = { version = "=0.4.45", default-features = false, features = ["std", "clock"] }
clap = { version = "=4.6.7", features = ["derive"] }
config = { version = "=0.15.27", default-features = false, features = ["toml"] }
diesel = { version = "=2.3.14", features = ["sqlite", "r2d2", "returning_clauses_for_sqlite_3_35"] }
jsonwebtoken = "=9.3.1"
libsqlite3-sys = { version = "=0.38.2", features = ["bundled"] }
mail-parser = "=0.11.9"
maildirs = "=0.2.2"
mime_guess = "=2.0.5"
persy = "=1.8.1"
reqwest = { version = "=0.12.28", default-features = false, features = ["multipart", "rustls-tls"] }
serde = { version = "=1.0.229", features = ["derive"] }
tantivy = "=0.27.0"
tokio = { version = "=1.54.1", features = ["rt-multi-thread", "macros", "fs", "net"] }
tracing = "=0.1.44"
zstd = "=0.14.3"
