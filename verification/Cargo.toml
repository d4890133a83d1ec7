[package]
name = "locale_assets"
version = "0.1.0"
edition = "2021"
publish = false

[dependencies]
fluent = "*"
fluent-bundle = "*"
fluent-syntax = "*"
unic-langid = "*"
intl-memoizer = "*"
amethyst_assets = "*"
amethyst_core = "*"
amethyst_error = "*"
