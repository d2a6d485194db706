[package]
name = "libruntime"
version = "0.1.0"
edition = "2021"
publish = false

[dependencies]
bit_field = "0.10"
hashbrown = "0.15"
time = { version = "0.3", default-features = false }
bitflags = "2"
log = "0.4"
lazy_static = "1"
async-trait = "0.1"
