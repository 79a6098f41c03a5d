[package]
name = "altjtalk"
version = "0.1.0"
edition = "2021"
publish = false

[dependencies]
byteorder = "=1.5.0"
jbonsai = "=0.4.2"
jpreprocess = "=0.15.0"
