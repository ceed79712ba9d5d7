[package]
name = "mdbook_svgbob"
version = "0.1.0"
edition = "2021"
publish = false

[dependencies]
pulldown-cmark = "0.9"
pulldown-cmark-to-cmark = "11"
svgbob = "0.7"
semver = "1"
mdbook = { version = "0.4", default-features = false }
serde_json = "1"
