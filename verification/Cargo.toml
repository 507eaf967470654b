[package]
name = "mailbox_probe"
version = "0.1.0"
edition = "2021"
publish = false

[dependencies]
lettre = { version = "0.9", default-features = false, features = ["smtp-transport"] }
trust-dns-resolver = { version = "*", default-features = false }
