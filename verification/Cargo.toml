[package]
name = "rbx_bytesize_ncdu"
version = "0.1.0"
edition = "2021"
publish = false

[dependencies]
rbx_binary = "=3.0.1"
rbx_dom_weak = "=4.2.0"
rbx_reflection_database = "=3.0.1"
rbx_types = "=3.1.0"
serde_json = "=1.0.151"
chrono = "=0.4.45"
