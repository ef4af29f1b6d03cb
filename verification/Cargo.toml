[package]
name = "nix_expr"
version = "0.1.0"
edition = "2021"
publish = false
