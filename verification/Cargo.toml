[package]
name = "kyron"
version = "0.1.0"
edition = "2021"
publish = false

[dependencies]
iceoryx2-bb-container = "=0.6.1"
iceoryx2-bb-elementary = "=0.6.1"
iceoryx2-bb-posix = "=0.6.1"
iceoryx2-bb-lock-free = "=0.6.1"
iceoryx2-bb-memory = "=0.6.1"
tracing = "=0.1.44"
