//! Rendering a record into FASTA or FASTQ text bytes.
//!
//! Binary alignment output is re-serialized by the container format's own
//! writer outside this library; the text encodings below are the library's
//! own and are rendered here, byte for byte.

use vstd::prelude::*;

verus! {

/// A record that cannot be rendered without losing data.
#[derive(Debug, Clone, Copy, PartialEq, Eq, Structural)]
pub enum FormatError {
    /// The base sequence and the quality codes differ in length, so a FASTQ
    /// record would be truncated or padded.
    QualityLengthMismatch,
}

/// The FASTA rendering of a record: `>`, identifier, newline, base
/// sequence, newline.
pub open spec fn spec_fasta(read_id: Seq<u8>, seq: Seq<u8>) -> Seq<u8> {
    seq![62u8] + read_id + seq![10u8] + seq + seq![10u8]
}

/// Quality codes shifted to the printable range by the minimum printable
/// offset.
pub open spec fn shift_quals(quals: Seq<u8>) -> Seq<u8> {
    quals.map_values(|q: u8| (q + 33) as u8)
}

/// The FASTQ rendering of a record: `@`, identifier, newline, base
/// sequence, newline, `+`, newline, shifted quality codes, newline.
pub open spec fn spec_fastq(read_id: Seq<u8>, seq: Seq<u8>, quals: Seq<u8>) -> Seq<u8> {
    seq![64u8] + read_id + seq![10u8] + seq + seq![10u8] + seq![43u8, 10u8] + shift_quals(quals)
        + seq![10u8]
}

/// Quality codes small enough that the printable shift cannot overflow a
/// byte. Phred codes are far below this bound on well-formed input.
pub open spec fn quals_shiftable(quals: Seq<u8>) -> bool {
    forall|k: int| 0 <= k < quals.len() ==> quals[k] + 33 <= 255
}

/// Render a record as one FASTA text record.
pub fn encode_fasta_record(read_id: &[u8], seq: &[u8]) -> (out: Vec<u8>)
    ensures
        out@ == spec_fasta(read_id@, seq@),
{
    let mut out: Vec<u8> = Vec::new();
    out.push(62);
    out.extend_from_slice(read_id);
    out.push(10);
    out.extend_from_slice(seq);
    out.push(10);
    proof {
        assert(out@ =~= spec_fasta(read_id@, seq@));
    }
    out
}

/// Render a record as one FASTQ text record, or report the record as
/// unrecoverable when its sequence and quality arrays disagree in length.
pub fn encode_fastq_record(read_id: &[u8], seq: &[u8], quals: &[u8]) -> (out: Result<
    Vec<u8>,
    FormatError,
>)
    requires
        quals_shiftable(quals@),
    ensures
        match out {
            Ok(bytes) => seq@.len() == quals@.len() && bytes@ == spec_fastq(
                read_id@,
                seq@,
                quals@,
            ),
            Err(e) => seq@.len() != quals@.len() && e == FormatError::QualityLengthMismatch,
        },
{
    if seq.len() != quals.len() {
        return Err(FormatError::QualityLengthMismatch);
    }
    let mut out: Vec<u8> = Vec::new();
    out.push(64);
    out.extend_from_slice(read_id);
    out.push(10);
    out.extend_from_slice(seq);
    out.push(10);
    out.push(43);
    out.push(10);
    let ghost head = out@;
    let mut k: usize = 0;
    while k < quals.len()
        invariant
            k <= quals@.len(),
            quals_shiftable(quals@),
            out@ == head + shift_quals(quals@.take(k as int)),
        decreases quals@.len() - k,
    {
        out.push(quals[k] + 33);
        proof {
            assert(out@ =~= head + shift_quals(quals@.take(k + 1)));
        }
        k += 1;
    }
    out.push(10);
    proof {
        assert(quals@.take(quals@.len() as int) =~= quals@);
        assert(out@ =~= spec_fastq(read_id@, seq@, quals@));
    }
    Ok(out)
}

} // verus!
