[package]
name = "deth_token"
version = "0.1.0"
edition = "2021"
publish = false

[dependencies]
bytecheck = "0.6"
digest = "0.10"
piecrust-uplink = "*"
rand = "0.8"
rkyv = "0.7"
secp256k1 = { version = "0.29", features = ["recovery"] }
sha3 = "0.10"
