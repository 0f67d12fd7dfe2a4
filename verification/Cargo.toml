[package]
name = "aspen"
version = "0.1.0"
edition = "2021"
publish = false

[dependencies]
ariadne = "0.4"
dialoguer = "0.11"
hashbrown = "0.14"
logos = "0.14"
rand = "0.8"
rug = "1"
