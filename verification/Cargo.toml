[package]
name = "shielded_codec"
version = "0.1.0"
edition = "2021"
publish = false

[dependencies]
bls12_381 = "=0.9.0"
byteorder = "=1.5.0"
lazy_static = "=1.5.1"
nonempty = "=0.12.0"
orchard = { version = "=0.16.0", default-features = false }
pasta_curves = { version = "=0.6.1", features = ["alloc"] }
zcash_address = "=0.14.0"
zcash_encoding = "=0.5.0"
zcash_note_encryption = "=0.5.1"
zcash_protocol = "=0.11.0"
zcash_transparent = "=0.11.0"
zip32 = "=0.3.0"
