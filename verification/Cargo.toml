[package]
name = "doco"
version = "0.2.3"
edition = "2021"
publish = false

[dependencies]
anyhow = "=1.0.104"
inventory = "=0.3.25"
libtest-mimic = "=0.8.2"
reqwest = "=0.13.5"
testcontainers = "=0.27.3"
thirtyfour = "=0.38.1"
tokio = { version = "=1.54.1", features = ["rt-multi-thread", "macros"] }
tracing = "=0.1.44"
tracing-subscriber = { version = "=0.3.23", features = ["env-filter", "fmt"] }
url = "=2.5.8"
