[package]
name = "firmware_image"
version = "0.1.0"
edition = "2021"
publish = false

[dependencies]
aes-gcm = "=0.10.3"
arbitrary-int = "=1.3.0"
hex = "=0.4.3"
libsm = "=0.6.1"
num-bigint-dig = "=0.8.6"
rsa = "=0.9.10"
sha2 = "=0.10.9"
thiserror = "=1.0.69"
volatile-register = "=0.2.2"
