[package]
name = "cxx-qt-gen"
version = "0.1.0"
edition = "2021"
publish = false

[dependencies]
convert_case = "0.6"
unicode-ident = "1"
syn = "2"
quote = "1"
cxx = "1"
