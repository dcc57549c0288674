[package]
name = "kiro_synth_host"
version = "0.1.0"
edition = "2021"
publish = false

[dependencies]
heapless = "0.5"
ringbuf = "0.2"
generic-array = "0.13"
typenum = "1"
num-traits = "0.2"
anyhow = "1"
thiserror = "1"
derivative = "2"
jack = "0.6"
cpal = "0.12"
druid = "0.6"
