[package]
name = "shinc"
version = "0.1.0"
edition = "2021"
publish = false

[dependencies]
anyhow = "1"
argc = "*"
clap = { version = "4", features = ["derive"] }
clap_complete = "4"
clap-verbosity-flag = "*"
colored = "*"
config = { version = "*", default-features = false, features = ["toml"] }
dialoguer = "*"
env_logger = "*"
flate2 = "1"
git2 = { version = "*", default-features = false }
git-cliff = { version = "*", default-features = false }
heck = "0.5"
log = "0.4"
once_cell = "1"
reqwest = { version = "*", default-features = false, features = ["blocking"] }
semver = "1"
serde = { version = "1", features = ["derive"] }
serde_json = "1"
serde_yaml = "0.9"
sha2 = "0.10"
shellexpand = "*"
tar = "0.4"
tera = { version = "1", default-features = false }
toml_edit = { version = "0.22", features = ["serde"] }
url = { version = "2", features = ["serde"] }
which = "*"

[dev-dependencies]
dirs = "*"
