[package]
name = "pycabe"
version = "0.1.0"
edition = "2021"
publish = false

[dependencies]
ignore = "=0.4.33"
ruff_python_ast = "=0.0.6"
ruff_python_parser = "=0.0.6"
