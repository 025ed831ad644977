[package]
name = "tlspuffin"
version = "0.1.0"
edition = "2021"
publish = false

[dependencies]
itertools = "=0.10.5"
ring = "=0.16.20"
openssl = "=0.10.81"
foreign-types = "=0.3.2"
libc = "=0.2.191"

[dev-dependencies]
rustls = "=0.19.1"
