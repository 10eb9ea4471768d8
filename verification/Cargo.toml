[package]
name = "xous_core"
version = "0.1.0"
edition = "2021"
publish = false

[dependencies]
gdbstub = "=0.6.6"
log = "=0.4.35"
rkyv = "=0.3.1"
