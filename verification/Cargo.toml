[package]
name = "luascad"
version = "0.1.0"
edition = "2021"
publish = false

[dependencies]
hlua = "=0.4.3"
implicit3d = "=0.16.0"
nalgebra = "=0.34.2"
gtk = "=0.19.0"
gdk = "=0.19.0"
cairo-rs = "=0.22.9"
