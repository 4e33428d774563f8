[package]
name = "debug_stub"
version = "0.1.0"
edition = "2021"
publish = false

[dependencies]
gdbstub = "=0.6.6"
gdbstub_arch = "=0.2.4"
log = "=0.4.34"
pretty_env_logger = "=0.5.0"
