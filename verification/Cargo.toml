[package]
name = "msgpack_rpc"
version = "0.1.0"
edition = "2021"
publish = false

[dependencies]
rmp = "0.8"
rmpv = "1"
quick-error = "1"
