//! Run configuration: which reads to keep, how to encode them, and whether
//! text output is compressed.

use vstd::prelude::*;

verus! {

/// Which category (or categories) of reads a run writes out.
#[derive(Debug, Clone, Copy, PartialEq, Eq, Structural)]
pub enum SplitType {
    /// Write both sequenced and unblocked reads, each to its own destination.
    All,
    /// Write unblocked reads only.
    UnblockedOnly,
    /// Write sequenced reads only.
    SequencedOnly,
}

impl Default for SplitType {
    /// The default run writes sequenced reads only.
    fn default() -> (r: Self)
        ensures
            r == SplitType::SequencedOnly,
    {
        SplitType::SequencedOnly
    }
}

/// The serialization format of the output destinations.
#[derive(Debug, Clone, Copy, PartialEq, Eq, Structural)]
pub enum EmitType {
    /// Re-serialize records into the binary alignment format.
    Bam,
    /// Render records as FASTQ text.
    Fastq,
    /// Render records as FASTA text.
    Fasta,
}

impl Default for EmitType {
    /// The default output format is the binary alignment format.
    fn default() -> (r: Self)
        ensures
            r == EmitType::Bam,
    {
        EmitType::Bam
    }
}

/// Compression applied to text-encoded destinations. Binary alignment output
/// always carries its own block compression, so this never applies to it.
#[derive(Debug, Clone, Copy, PartialEq, Eq, Structural)]
pub enum CompressionType {
    /// Plain text output.
    Uncompressed,
    /// Gzip-compressed text output.
    Gzipped,
}

impl Default for CompressionType {
    /// Text output is uncompressed by default.
    fn default() -> (r: Self)
        ensures
            r == CompressionType::Uncompressed,
    {
        CompressionType::Uncompressed
    }
}

} // verus!
