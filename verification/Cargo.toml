[package]
name = "cervisia"
version = "0.1.0"
edition = "2021"
publish = false

[dependencies]
rustix-bl = "=0.3.4"
suffix-rs = "=0.1.0"
chrono = "=0.4.45"
serde_json = "=1.0.154"
rand = "=0.8.8"
config = "=0.15.27"
lazy_static = "=1.5.1"
gtk = "=0.18.2"
gio = "=0.18.4"
glib = "=0.18.5"
gdk = "=0.18.2"
