[package]
name = "rdp_session"
version = "0.1.0"
edition = "2021"
publish = false

[dependencies]
anyhow = "=1.0.104"
async-trait = "=0.1.92"
ironrdp = { version = "=0.17.0", default-features = false, features = ["input", "pdu"] }
ironrdp-cliprdr = "=0.8.0"
proc-exit = "=2.0.2"
raw-window-handle = "=0.6.2"
smallvec = "=1.16.4"
softbuffer = { version = "=0.4.8", default-features = false, features = ["x11", "x11-dlopen"] }
tokio = { version = "=1.54.1", features = ["sync"] }
tokio-rustls = { version = "=0.26.6", default-features = false }
winit = { version = "=0.30.13", default-features = false, features = ["rwh_06", "x11"] }

[dev-dependencies]
rustls = { version = "=0.23.46", default-features = false, features = ["ring", "std"] }
