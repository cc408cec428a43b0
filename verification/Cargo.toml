[package]
name = "mythic_os"
version = "0.1.0"
edition = "2021"
publish = false

[dependencies]
pc-keyboard = "=0.7.0"
pic8259 = { version = "=0.10.4", default-features = false }
spin = "=0.9.9"
volatile = "=0.2.7"
x86_64 = { version = "=0.14.13", default-features = false, features = ["instructions"] }
