[package]
name = "direct_print"
version = "0.1.0"
edition = "2021"
publish = false

[dependencies]
neon = { version = "0.10", default-features = false, features = ["napi-6"] }
winapi = { version = "0.3", features = ["errhandlingapi", "minwindef", "ntdef", "winerror", "winspool"] }
