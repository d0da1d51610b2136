[package]
name = "ero_cassandra"
version = "0.1.0"
edition = "2021"
publish = false

[dependencies]
cassandra-cpp = "=3.0.2"
ero = "=0.14.6"
futures = "=0.3.34"
log = "=0.4.34"
tokio = { version = "=1.54.1", features = ["macros", "rt", "sync", "time"] }
