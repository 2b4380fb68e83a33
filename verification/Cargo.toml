[package]
name = "chainx"
version = "0.1.0"
edition = "2021"
publish = false

[dependencies]
# BLAKE2b-256, the hash under which the pool knows an extrinsic; substrate's
# BlakeTwo256 computes it with this crate's blake2b, and substrate's crates
# are not on the registry.
blake2-rfc = "=0.2.18"
# The serde forms of the runtime types in app/.
serde = { version = "=1.0.229", features = ["derive"] }
