//! The parsed command-line surface, as plain values.
//!
//! Argument parsing itself happens outside the library; what arrives here
//! is the already-validated configuration of a run.

use crate::config::{CompressionType, EmitType, SplitType};
use vstd::prelude::*;

verus! {

/// The command-line arguments of the application.
#[derive(Debug)]
pub struct Cli {
    /// The subcommand to execute.
    pub command: Commands,
}

/// The available commands of the application.
#[derive(Debug)]
pub enum Commands {
    /// Split FASTQ files into sequenced and unblocked reads.
    SplitFQ {
        /// Output file prefix.
        prefix: String,
        /// Whether rejected reads are written as well.
        write_unblocked: bool,
        /// Path of the rejected-identifier file.
        unblocked_read_ids: String,
        /// Paths of the input FASTQ files.
        input_fastq: Vec<String>,
    },
    /// Split a sequencing summary into sequenced and unblocked rows.
    SplitSS {
        /// Output file prefix.
        prefix: String,
        /// Path of the rejected-identifier file.
        unblocked_read_ids: String,
        /// Path of the sequencing summary file.
        sequencing_summary: String,
    },
    /// Split a BAM file into sequenced and unblocked records.
    SplitBam {
        /// Output file prefix.
        prefix: String,
        /// Path of the rejected-identifier file.
        unblocked_read_ids: String,
        /// Path of the BAM file holding the reads to be split.
        bam_file: String,
        /// Which categories of reads are written out.
        split_type: SplitType,
        /// Strict lower bound on average read quality, if configured.
        qual_thresh: Option<usize>,
        /// Strict lower bound on base-sequence length, if configured.
        length_thresh: Option<usize>,
        /// The output encoding of both destinations.
        emit_type: EmitType,
        /// Compression of text-encoded destinations.
        compression: CompressionType,
    },
}

} // verus!
