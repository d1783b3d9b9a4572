[package]
name = "speedy_transform"
version = "0.1.0"
edition = "2021"
publish = false

[dependencies]
heck = "=0.4.1"
serde = { version = "=1.0.229", features = ["derive"] }
napi = "=2.16.17"
napi-derive = "=2.16.13"
swc_atoms = "=10.0.0"
swc_common = { version = "=27.0.0", features = ["sourcemap"] }
swc_ecma_ast = "=30.0.0"
swc_ecma_parser = "=47.0.0"
swc_ecma_visit = "=30.0.0"
swc_ecma_transforms = "=65.0.0"
swc_ecma_codegen = "=33.0.0"
sass-sys = "=0.4.22"
