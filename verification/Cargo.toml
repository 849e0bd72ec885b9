[package]
name = "jsx_testid"
version = "0.1.0"
edition = "2021"
publish = false

[dependencies]
convert_case = "*"
serde = { version = "*", features = ["derive"] }
serde_json = "*"
swc_core = { version = "*", features = ["common", "ecma_ast", "ecma_visit"] }
