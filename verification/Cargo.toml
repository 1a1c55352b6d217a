[package]
name = "ruda"
version = "0.1.0"
edition = "2021"
publish = false

[dependencies]
docopt = "1"
llvm-sys = "80"
pest = "2"
pest_derive = "2"
serde = { version = "1", features = ["derive"] }
serde_derive = "1"
