[package]
name = "reels"
version = "0.1.0"
edition = "2021"
publish = false

[dependencies]
unicode-xid = "0.2"
urlencoding = "2"
url = "2"
httparse = "1"
lunatic = "*"
serde = { version = "1", features = ["derive"] }
syn = "*"
syn-mid = "*"
quote = "1"
proc-macro2 = "1"
