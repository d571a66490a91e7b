[package]
name = "s32g3_kernel"
version = "0.1.0"
edition = "2021"
publish = false

[dependencies]
cortex-a = { version = "=8.1.1", default-features = false }
linked_list_allocator = "=0.10.6"
