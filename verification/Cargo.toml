[package]
name = "cortex_m_interrupt"
version = "0.2.0"
edition = "2021"
publish = false

[dependencies]
cortex-m = "0.7"
proc-macro2 = "1"
quote = "1"
syn = { version = "1", features = ["full"] }
