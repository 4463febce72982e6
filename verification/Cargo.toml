[package]
name = "cobweb"
version = "0.1.0"
edition = "2021"
publish = false

[dependencies]
bytes = "=0.4.12"
spake2 = "=0.4.0"
keybob = "=0.4.0"
uuid = { version = "=1.29.0", features = ["v4"] }
httpcodec = "=0.2.3"
bytecodec = "=0.4.15"
directories = "=6.0.0"
futures = "=0.1.31"
tokio-core = "=0.1.18"
tokio-io = "=0.1.13"
tokio-codec = "=0.1.2"
tun-tap = "=0.1.4"
hyper = "=0.12.36"
mio = "=0.6.23"
rudp = "=0.2.1"
iui = "=0.3.0"
tarpc = { version = "=0.38.0", features = ["full"] }
tokio = { version = "=1.54.1", features = ["full"] }
futures-util = "=0.3.34"
serde = { version = "=1.0.229", features = ["derive"] }
