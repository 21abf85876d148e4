[package]
name = "re_dataframe_schema"
version = "0.1.0"
edition = "2021"
publish = false

[dependencies]
ahash = "=0.8.12"
arrow2 = { version = "=0.17.4", default-features = false }
bytemuck = { version = "=1.25.2", features = ["derive", "extern_crate_alloc"] }
