[package]
name = "deanery"
version = "0.1.0"
edition = "2021"
publish = false

[dependencies]
postgres = "=0.19.14"
rust_xlsxwriter = "=0.102.0"
native-dialog = "=0.7.0"
slint = { version = "=1.18.1", default-features = false, features = ["std", "compat-1-2"] }

[dev-dependencies]
zip = { version = "=9.2.2", default-features = false, features = ["deflate"] }
