[package]
name = "knrs"
version = "0.1.0"
edition = "2021"
publish = false

[dependencies]
csv = "0.15"
glob = "0.3"
pretty-bytes = "0.1"
quick-csv = "0.1"
scoped_threadpool = "0.1"
