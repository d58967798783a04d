[package]
name = "pico_de_gallo"
version = "0.1.0"
edition = "2021"
publish = false

[dependencies]
postcard = { version = "1", features = ["alloc"] }
serde = { version = "1", features = ["derive"] }
postcard-rpc = { version = "*", features = ["use-std", "raw-nusb"] }
postcard-schema = { version = "*", features = ["derive"] }
nusb = "*"
tokio = { version = "1", features = ["rt-multi-thread", "macros", "signal", "sync", "time"] }
futures = "0.3"
clap = { version = "4", features = ["derive"] }
color-eyre = "0.6"
tabled = "*"
embedded-hal = "1"
embedded-hal-async = "1"
embedded-io = "*"
embedded-io-async = "*"
