[package]
name = "gstaldergeist"
version = "0.1.0"
edition = "2021"
rust-version = "1.95"
publish = false

[dependencies]
async-trait = "=0.1.92"
chrono = { version = "=0.4.45", features = ["serde"] }
dptree = "=0.5.1"
lettre = "=0.11.23"
lopdf = "=0.46.0"
pdf-extract = "=0.12.1"
regex = "=1.13.1"
reqwest = { version = "=0.12.28", features = ["json"] }
rusqlite = { version = "=0.41.0", features = ["bundled", "chrono"] }
serde = { version = "=1.0.229", features = ["derive"] }
serde_json = "=1.0.154"
# teloxide depends on takecell, whose release 0.1.2 asks for a newer compiler
# than the rust-version above: the release before it is held here.
takecell = "=0.1.1"
teloxide = { version = "=0.17.0", features = ["macros"] }
thiserror = "=2.0.21"
tokio = { version = "=1.54.1", features = ["macros", "rt-multi-thread", "time"] }
tracing = "=0.1.44"
