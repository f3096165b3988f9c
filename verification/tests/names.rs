use rftools::config::{CompressionType, EmitType};
use rftools::names::output_filenames;

#[test]
fn default_names_bam() {
    let (s, u) = output_filenames("", EmitType::Bam, CompressionType::Uncompressed);
    assert_eq!(s, "sequenced.bam");
    assert_eq!(u, "unblocked.bam");
}

#[test]
fn default_names_fasta() {
    let (s, u) = output_filenames("", EmitType::Fasta, CompressionType::Uncompressed);
    assert_eq!(s, "sequenced.fasta");
    assert_eq!(u, "unblocked.fasta");
}

#[test]
fn prefixed_names_fastq() {
    let (s, u) = output_filenames("run1", EmitType::Fastq, CompressionType::Uncompressed);
    assert_eq!(s, "run1.sequenced.fastq");
    assert_eq!(u, "run1.unblocked.fastq");
}

#[test]
fn gz_suffix_on_compressed_text() {
    let (s, u) = output_filenames("", EmitType::Fasta, CompressionType::Gzipped);
    assert_eq!(s, "sequenced.fasta.gz");
    assert_eq!(u, "unblocked.fasta.gz");
}

#[test]
fn prefixed_gz_fastq() {
    let (s, u) = output_filenames("p", EmitType::Fastq, CompressionType::Gzipped);
    assert_eq!(s, "p.sequenced.fastq.gz");
    assert_eq!(u, "p.unblocked.fastq.gz");
}

#[test]
fn no_gz_suffix_on_binary_output() {
    // Binary alignment output carries its own block compression; the gzip
    // suffix never applies to it.
    let (s, u) = output_filenames("p", EmitType::Bam, CompressionType::Gzipped);
    assert_eq!(s, "p.sequenced.bam");
    assert_eq!(u, "p.unblocked.bam");
}
