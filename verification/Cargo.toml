[package]
name = "amanita-lib"
version = "0.1.0"
edition = "2021"
publish = false

[dependencies]
dusk-bls12_381 = "=0.13.0"
dusk-bytes = "=0.1.7"
derive-hex = "=0.1.2"
group = "=0.13.0"
rand_core = "=0.6.4"
sha2 = "=0.10.9"
aes = "=0.8.4"

[dev-dependencies]
ff = "=0.13.1"
