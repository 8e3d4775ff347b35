[package]
name = "peer_name_service"
version = "0.1.0"
edition = "2021"
publish = false

[dependencies]
# The library calls `ink_env` and `ink_storage`; the contract around it also
# encodes with `parity-scale-codec` and describes its types with `scale-info`.
ink_env = "=3.0.0-rc8"
ink_storage = "=3.0.0-rc8"
parity-scale-codec = { version = "2", features = ["derive"] }
scale-info = { version = "1", features = ["derive"] }
# The crates of ink! that these two are built on. They ask for them as
# "3.0.0-rc8", which later releases of the 3 line meet too, and those no
# longer fit this release: each is held to it here.
ink_allocator = "=3.0.0-rc8"
ink_metadata = "=3.0.0-rc8"
ink_prelude = "=3.0.0-rc8"
ink_primitives = "=3.0.0-rc8"
ink_storage_derive = "=3.0.0-rc8"
