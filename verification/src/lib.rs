//! Classify nanopore sequencing reads as "sequenced" or "unblocked" using a
//! precomputed set of rejected-read identifiers, and render the accepted
//! records for one of several downstream output formats.
//!
//! The library holds the pure decision and encoding logic: identifier-set
//! construction and membership, the record filter, composite-identifier
//! classification, output-file naming, per-record routing, and FASTA/FASTQ
//! text encoding. File handling, BAM decoding, and the floating-point
//! quality average live in the surrounding binary, which feeds this library
//! plain values.

pub mod bytes;
pub mod classify;
pub mod cli;
pub mod config;
pub mod driver;
pub mod encode;
pub mod fastx;
pub mod ids;
pub mod names;
pub mod record;
pub mod router;
pub mod summary;
