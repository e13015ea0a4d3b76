[package]
name = "cloud_filter"
version = "0.1.0"
edition = "2021"
publish = false

[dependencies]
widestring = "=1.2.1"

[dependencies.windows]
version = "=0.44.0"
features = [
    "Foundation",
    "Storage",
    "Storage_Provider",
    "Storage_Streams",
    "Win32_Foundation",
    "Win32_Storage_CloudFilters",
]
