[package]
name = "sbd_db_import"
version = "0.2.0"
edition = "2021"
publish = false

[dependencies]
chrono = { version = "=0.4.45", default-features = false, features = ["std", "clock"] }
clap = "=4.6.7"
log = "=0.4.34"
mysql = { version = "=28.0.4", features = ["chrono"] }
simplelog = "=0.12.2"
