[package]
name = "hangman"
version = "0.1.0"
edition = "2021"

[dependencies]
colored = "*"
