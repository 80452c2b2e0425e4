[package]
name = "midi_cw_keyer"
version = "0.1.0"
edition = "2021"
publish = false

[dependencies]
eyre = "0.6"
lexopt = "0.3"
midir = "0.10"
ringbuffer = "*"
rodio = { version = "0.20", default-features = false }
tokio = { version = "1", features = ["macros", "rt", "sync", "time"] }
wmidi = "4"
