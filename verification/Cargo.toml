[package]
name = "pkgbuild_manifest"
version = "0.1.0"
edition = "2021"
publish = false

[dependencies]
derive_more = { version = "1", features = ["as_ref", "deref", "display", "error", "into"] }
pipe-trait = "0.4"
serde = { version = "1", features = ["derive"] }
serde-hjson = "*"
split-first-char = "*"
