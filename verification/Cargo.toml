[package]
name = "console_fmt"
version = "0.1.0"
edition = "2021"
publish = false

[dependencies]
log = "=0.4.34"
hirofa_utils = "=0.6.1"
