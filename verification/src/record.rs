//! One decoded alignment record, reduced to the plain values the splitting
//! logic reads, and the record filter.

use vstd::prelude::*;

verus! {

/// The plain values the splitting logic reads from one decoded alignment
/// record: identifier, base sequence, per-base quality codes, the two
/// excluded alignment flags, and whether the record carries the duplex
/// segment tag that marks a composite identifier.
pub struct ReadRecord {
    /// The read identifier, as raw bytes.
    pub read_id: Vec<u8>,
    /// The decoded base sequence, one byte per base.
    pub seq: Vec<u8>,
    /// Per-base quality codes, Phred scale, not yet shifted to printable.
    pub quals: Vec<u8>,
    /// The secondary-alignment flag.
    pub is_secondary: bool,
    /// The supplementary-alignment flag.
    pub is_supplementary: bool,
    /// Whether the record carries the duplex segment tag, so that its
    /// identifier is composite.
    pub has_duplex_tag: bool,
}

/// The mathematical content of a [`ReadRecord`].
pub struct ReadRecordView {
    pub read_id: Seq<u8>,
    pub seq: Seq<u8>,
    pub quals: Seq<u8>,
    pub is_secondary: bool,
    pub is_supplementary: bool,
    pub has_duplex_tag: bool,
}

impl View for ReadRecord {
    type V = ReadRecordView;

    open spec fn view(&self) -> ReadRecordView {
        ReadRecordView {
            read_id: self.read_id@,
            seq: self.seq@,
            quals: self.quals@,
            is_secondary: self.is_secondary,
            is_supplementary: self.is_supplementary,
            has_duplex_tag: self.has_duplex_tag,
        }
    }
}

/// The views of a sequence of records.
pub open spec fn rec_views(rs: Seq<ReadRecord>) -> Seq<ReadRecordView> {
    rs.map_values(|r: ReadRecord| r@)
}

/// Whether a record passes the filter: its average quality strictly exceeds
/// the quality threshold if one was configured, its base-sequence length
/// strictly exceeds the length threshold if one was configured, and it is
/// neither secondary nor supplementary. The average quality is a
/// floating-point quantity computed by the caller in the probability domain;
/// the filter takes the outcome of the strict comparison as `qual_check`
/// (`None` when no quality threshold was configured).
pub open spec fn spec_passes_filter(
    rec: ReadRecordView,
    length_thresh: Option<usize>,
    qual_check: Option<bool>,
) -> bool {
    &&& match qual_check {
        None => true,
        Some(exceeds) => exceeds,
    }
    &&& match length_thresh {
        None => true,
        Some(t) => rec.seq.len() > t,
    }
    &&& !rec.is_secondary
    &&& !rec.is_supplementary
}

/// Apply the record filter. A record failing any condition is dropped from
/// every output.
pub fn passes_filter(
    rec: &ReadRecord,
    length_thresh: Option<usize>,
    qual_check: Option<bool>,
) -> (r: bool)
    ensures
        r == spec_passes_filter(rec@, length_thresh, qual_check),
{
    let qual_ok = match qual_check {
        None => true,
        Some(exceeds) => exceeds,
    };
    let long_enough = match length_thresh {
        None => true,
        Some(t) => rec.seq.len() > t,
    };
    qual_ok && long_enough && !rec.is_secondary && !rec.is_supplementary
}

} // verus!
