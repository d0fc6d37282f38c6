[package]
name = "produce_consume"
version = "0.1.0"
edition = "2021"
publish = false

[dependencies]
cylinder = "=0.2.4"
hex = "=0.4.3"
log = "=0.4.34"
log4rs = "=1.4.0"
rand = "=0.8.8"
sha2 = "=0.11.1"
transact = "=0.4.7"

[dev-dependencies]
protobuf = "=2.28.0"
regex = "=1.13.1"
