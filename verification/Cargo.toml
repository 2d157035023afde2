[package]
name = "xivtools"
version = "0.1.0"
edition = "2021"
publish = false

[dependencies]
regex = "1"
linked_hash_set = "0.1"
url = "2"
serde = { version = "1", features = ["derive"] }
serde_json = "1"
toml = "0.5"
ureq = { version = "1", default-features = false }
reqwest = { version = "0.11", default-features = false, features = ["blocking"] }
anyhow = "1"
thiserror = "1"
failure = "0.1"
log = "0.4"
env_logger = "0.9"
structopt = "0.3"
chrono = "0.4"
console = "0.15"
indicatif = "0.16"
winapi = { version = "0.3", features = ["winuser", "psapi", "memoryapi", "processthreadsapi", "errhandlingapi", "winnt", "minwindef", "windef", "basetsd", "ntdef"] }
lazy_static = "1"
clipboard = "0.5"
imgui = "0.4"
