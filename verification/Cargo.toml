[package]
name = "timezoners"
version = "0.1.0"
edition = "2021"
publish = false

[dependencies]
chrono = "0.4"
chrono-tz = "0.10"
gtk = "0.9"
gdk = "0.13"
glib = "0.10"
cairo-rs = "0.9"
relm = "0.20"
relm-derive = "0.20"
