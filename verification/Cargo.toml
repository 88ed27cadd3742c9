[package]
name = "bounded_cube"
version = "0.1.0"
edition = "2021"
publish = false

[dependencies]
bevy = { version = "=0.7.0", default-features = false, features = ["render", "bevy_winit", "x11"] }
# bevy_derive 0.7.0 forgets to ask for syn's "full" feature and only builds
# when some other crate in the graph turns it on; the two lines below do so
# for the target and the proc-macro contexts respectively.
syn = { version = "=1.0.109", features = ["full"] }
async-trait = "=0.1.66"
