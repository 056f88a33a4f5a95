[package]
name = "ptrack"
version = "0.1.0"
edition = "2021"
publish = false

[dependencies]
serde_json = "=1.0.151"
mime_guess = "=2.0.5"
actix = "=0.13.5"
actix-web = "=4.15.0"
actix-web-actors = "=4.3.1"
actix-rt = "=2.15.0"
ctrlc = "*"
