[package]
name = "screeps_creep"
version = "0.1.0"
edition = "2021"
publish = false

[dependencies]
scoped-tls = "=1.0.1"
stdweb = "=0.4.20"
