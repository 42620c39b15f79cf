[package]
name = "hacksquad"
version = "0.1.0"
edition = "2021"
publish = false

[dependencies]
serenity = "0.11"
simsearch = "0.2"
rand = "0.8"
serde = { version = "1", features = ["derive"] }
serde_json = "1"
reqwest = { version = "0.11", default-features = false, features = ["json", "rustls-tls"] }
redis = "0.22"
tokio = { version = "1", features = ["macros", "rt-multi-thread", "sync"] }
time = "0.3"
chrono = "0.4"
git2 = { version = "0.15", default-features = false }
dotenvy = "0.15"
envy = "0.4"
