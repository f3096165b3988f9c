[package]
name = "rftools"
version = "0.1.0"
edition = "2021"
publish = false

[dependencies]
clap = { version = "*", features = ["derive"] }
csv = "*"
flate2 = "*"
fnv = "*"
fst = "*"
indicatif = "*"
needletail = "*"
noodles = { version = "*", features = ["bam", "bgzf", "sam"] }
noodles-bgzf = "*"
