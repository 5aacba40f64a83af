[package]
name = "cosmic-panel"
version = "0.1.0"
edition = "2021"
publish = false

[dependencies]
cascade = "1"
freedesktop-desktop-entry = "0.5"
gdk4-wayland = "0.4"
glib = "0.15"
gtk4 = "0.4"
