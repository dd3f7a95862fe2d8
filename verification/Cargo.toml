[package]
name = "solo_machine"
version = "0.1.0"
edition = "2021"
publish = false

[dependencies]
k256 = "*"
sha2 = "*"
ripemd = "*"
bech32 = "*"
bip39 = "*"

[dev-dependencies]
cosmos-sdk-proto = "*"
ibc-proto = "*"
prost = "*"
