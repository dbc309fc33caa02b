[package]
name = "oxidenes"
version = "0.1.0"
edition = "2021"
publish = false

[dependencies]
ringbuf = "0.2"
sdl2 = "0.35"
time = "0.1"
