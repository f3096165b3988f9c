use rftools::encode::{encode_fasta_record, encode_fastq_record, FormatError};

#[test]
fn fasta_bytes_exact() {
    let out = encode_fasta_record(b"r1", b"ACGT");
    assert_eq!(out, b">r1\nACGT\n".to_vec());
}

#[test]
fn fasta_empty_sequence() {
    let out = encode_fasta_record(b"r1", b"");
    assert_eq!(out, b">r1\n\n".to_vec());
}

#[test]
fn fastq_bytes_exact_with_printable_shift() {
    // Quality codes 0 and 40 shift to '!' (33) and 'I' (73).
    let out = encode_fastq_record(b"r1", b"AC", &[0, 40]).unwrap();
    assert_eq!(out, b"@r1\nAC\n+\n!I\n".to_vec());
}

#[test]
fn fastq_never_reorders_or_truncates() {
    let out = encode_fastq_record(b"r", b"ACGT", &[10, 20, 30, 40]).unwrap();
    assert_eq!(out, b"@r\nACGT\n+\n+5?I\n".to_vec());
}

#[test]
fn fastq_length_mismatch_is_error() {
    let err = encode_fastq_record(b"r1", b"ACG", &[30, 30]).unwrap_err();
    assert_eq!(err, FormatError::QualityLengthMismatch);
}
