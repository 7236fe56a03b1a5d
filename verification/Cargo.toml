[package]
name = "peep"
version = "0.1.0"
edition = "2021"
publish = false

[dependencies]
clap = { version = "=4.6.7", features = ["cargo"] }
crossterm = "=0.27.0"
polars = { version = "=0.36.2", features = ["lazy", "parquet", "streaming"] }
polars-sql = "=0.36.2"
rand = "=0.8.8"
