[package]
name = "drm_trust"
version = "0.1.0"
edition = "2021"
publish = false

[dependencies]
p256 = "*"
aes = "*"
cbc = "*"
cmac = "*"
hmac = "*"
sha2 = "*"
data-encoding = "*"
hex = "*"
rand = "*"
quick-xml = "*"
