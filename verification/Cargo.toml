[package]
name = "rav1e_core"
version = "0.1.0"
edition = "2021"
publish = false

[dependencies]
libc = "0.2"
paste = "1.0"
thiserror = "1.0"
v_frame = "0.3"
