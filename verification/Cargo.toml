[package]
name = "xwrap"
version = "0.1.0"
edition = "2021"
publish = false

[dependencies]
x11 = { version = "=2.21.0", features = ["xlib", "xfixes"] }
libc = "=0.2.190"
mio = { version = "=1.2.4", default-features = false, features = ["os-poll", "os-ext"] }
thiserror = "=1.0.69"
