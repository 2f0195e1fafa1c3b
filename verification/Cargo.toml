[package]
name = "wascc_host"
version = "0.14.0"
edition = "2021"
publish = false

[dependencies]
wascap = "=0.5.2"
wascc-codec = "=0.8.1"
rmp = "=0.8.9"
wapc = "=0.10.1"
latticeclient = "=0.4.0"
nats = "=0.8.6"
ring = "=0.16.20"
data-encoding = "=2.11.1"
uuid = { version = "=0.8.2", features = ["v4"] }
rand = "=0.7.3"
serde = { version = "1", features = ["derive"] }
serde_json = "1"
serde_yaml = "=0.8.26"
envmnt = "=0.8.4"
crossbeam = "=0.7.3"
crossbeam-channel = "=0.4.4"
crossbeam-utils = "=0.7.2"
prometheus = { version = "=0.10.0", features = ["push"] }
hyper = "=0.13.10"
tokio = { version = "=0.2.25", features = ["full"] }
log = "0.4"
env_logger = "=0.7.1"
structopt = "=0.3.26"
ctrlc = "3"
libloading = "=0.6.7"
oci-distribution = "=0.4.0"
provider-archive = "=0.2.1"
wasm3-provider = "=0.0.3"
