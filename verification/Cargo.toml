[package]
name = "cpp_ast"
version = "0.1.0"
edition = "2021"
publish = false

[dependencies]
clang-ast = "0.1"
color-eyre = "0.6"
proc-macro2 = "1"
quote = "1"
regex = "1"
reqwest = { version = "0.11", features = ["json"] }
serde = { version = "1", features = ["derive"] }
serde_json = "1"
syn = { version = "2", features = ["full"] }
tokio = { version = "1", features = ["macros", "rt-multi-thread"] }
