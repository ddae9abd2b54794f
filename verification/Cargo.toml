[package]
name = "openlumen"
version = "0.1.0"
edition = "2021"
publish = false

[dependencies]
crc = "=3.4.0"
itoa = "=1.0.18"
heapless = { version = "=0.9.3", features = ["serde"] }
serde = { version = "=1.0.229", default-features = false, features = ["derive"] }
serde-json-core = "=0.7.0"
postcard = "=1.1.3"
embassy-rp = { version = "=0.10.0", features = ["rp235xa", "time-driver", "critical-section-impl"] }
embassy-net = { version = "=0.9.1", features = ["proto-ipv4", "udp", "tcp", "medium-ethernet", "dhcpv4", "dhcpv4-hostname"] }
embassy-net-wiznet = "=0.3.0"
embassy-executor = "=0.10.0"
embassy-time = "=0.5.1"
embassy-sync = "=0.8.0"
embassy-futures = "=0.1.2"
embedded-hal-bus = { version = "=0.3.0", features = ["async"] }
embedded-io-async = "=0.7.0"
picoserve = { version = "=0.20.1", features = ["embassy", "ws"] }
static_cell = "=2.1.1"
littlefs2 = "=0.8.1"
littlefs2-core = "=0.1.3"
fixed = "=1.31.0"
fixed-macro = "=1.2.0"
typenum = "=1.20.1"
defmt = "1"
defmt-rtt = "1"
panic-probe = { version = "1", features = ["print-defmt"] }
embedded-alloc = "*"
