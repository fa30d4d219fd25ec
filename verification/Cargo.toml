[package]
name = "joust"
version = "0.1.0"
edition = "2021"
publish = false

[dependencies]
crossbeam = "*"
pc-keyboard = "*"
pluggable_interrupt_os = "*"
