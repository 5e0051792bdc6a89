[package]
name = "kira"
version = "0.1.0"
edition = "2021"
publish = false

[dependencies]
ringbuf = "0.2"
hound = "3"
claxon = "0.4"
lewton = "0.10"
minimp3 = "0.5"
thiserror = "1"
