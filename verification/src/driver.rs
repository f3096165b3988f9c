//! The per-record pipeline: filter, classify, route, encode.
//!
//! The surrounding binary owns the input container and the output files; it
//! decodes one record at a time into plain values and performs the action
//! decided here. Everything the run decides about a record — whether it
//! passes the filter, which category it belongs to, which destination (if
//! any) receives it, and the exact bytes of its text rendering — is decided
//! and proved in this module.

use crate::classify::{classify_unblocked, spec_classify};
use crate::config::{CompressionType, EmitType, SplitType};
use crate::encode::{
    encode_fasta_record, encode_fastq_record, quals_shiftable, spec_fasta, spec_fastq, FormatError,
};
use crate::ids::{id_set, UnblockedIds};
use crate::record::{passes_filter, rec_views, ReadRecord, ReadRecordView, spec_passes_filter};
use crate::router::{route, spec_route, Destination};
use vstd::prelude::*;

verus! {

/// The fixed configuration of one splitting run.
#[derive(Debug, Clone, Copy)]
pub struct SplitConfig {
    /// Which categories of reads are written out.
    pub split_type: SplitType,
    /// The output encoding of both destinations.
    pub emit_type: EmitType,
    /// Compression of text-encoded destinations.
    pub compression: CompressionType,
    /// Strict lower bound on average read quality, if configured.
    pub qual_thresh: Option<usize>,
    /// Strict lower bound on base-sequence length, if configured.
    pub length_thresh: Option<usize>,
}

/// The quality part of the filter: nothing to check when no threshold was
/// configured, otherwise the caller-computed outcome of the strict
/// comparison of the average quality against the threshold.
pub open spec fn qual_check_of(cfg: SplitConfig, qual_exceeds: bool) -> Option<bool> {
    match cfg.qual_thresh {
        None => None,
        Some(_) => Some(qual_exceeds),
    }
}

/// The destination, if any, that one record reaches: none when the record
/// fails the filter, otherwise its category's destination when that
/// destination is active.
pub open spec fn spec_record_route(
    rec: ReadRecordView,
    cfg: SplitConfig,
    ids: Set<Seq<u8>>,
    qual_exceeds: bool,
) -> Option<Destination> {
    if spec_passes_filter(rec, cfg.length_thresh, qual_check_of(cfg, qual_exceeds)) {
        spec_route(cfg.split_type, spec_classify(rec.read_id, rec.has_duplex_tag, ids))
    } else {
        None
    }
}

/// The text rendering of one record under a text output encoding.
pub open spec fn spec_text_record(rec: ReadRecordView, emit: EmitType) -> Seq<u8>
    recommends
        emit != EmitType::Bam,
{
    if emit == EmitType::Fastq {
        spec_fastq(rec.read_id, rec.seq, rec.quals)
    } else {
        spec_fasta(rec.read_id, rec.seq)
    }
}

/// What the run does with one record.
pub enum RecordAction {
    /// The record is written nowhere: it failed the filter, or its
    /// category's destination is inactive.
    Skip,
    /// Re-serialize the record through the binary container writer of the
    /// given destination, under the shared alignment header.
    WriteBam(Destination),
    /// Write exactly these bytes to the given destination.
    WriteText(Destination, Vec<u8>),
}

/// Decide the action for one record: apply the filter, classify the record
/// against the rejected set, route it, and render it for text output.
///
/// `qual_exceeds` is the outcome of the caller's strict floating-point
/// comparison of the record's probability-domain average quality against
/// the configured threshold; it is ignored when no threshold is configured.
pub fn process_record(
    rec: &ReadRecord,
    cfg: &SplitConfig,
    ids: &UnblockedIds,
    qual_exceeds: bool,
) -> (action: Result<RecordAction, FormatError>)
    requires
        cfg.emit_type == EmitType::Fastq ==> quals_shiftable(rec.quals@),
    ensures
        match action {
            Ok(RecordAction::Skip) => spec_record_route(rec@, *cfg, id_set(*ids), qual_exceeds)
                == None::<Destination>,
            Ok(RecordAction::WriteBam(d)) => cfg.emit_type == EmitType::Bam && spec_record_route(
                rec@,
                *cfg,
                id_set(*ids),
                qual_exceeds,
            ) == Some(d),
            Ok(RecordAction::WriteText(d, bytes)) => cfg.emit_type != EmitType::Bam
                && spec_record_route(rec@, *cfg, id_set(*ids), qual_exceeds) == Some(d) && bytes@
                == spec_text_record(rec@, cfg.emit_type) && (cfg.emit_type == EmitType::Fastq
                ==> rec.seq@.len() == rec.quals@.len()),
            Err(e) => cfg.emit_type == EmitType::Fastq && spec_record_route(
                rec@,
                *cfg,
                id_set(*ids),
                qual_exceeds,
            ) != None::<Destination> && rec.seq@.len() != rec.quals@.len() && e
                == FormatError::QualityLengthMismatch,
        },
{
    let qual_check = match cfg.qual_thresh {
        None => None,
        Some(_) => Some(qual_exceeds),
    };
    if !passes_filter(rec, cfg.length_thresh, qual_check) {
        return Ok(RecordAction::Skip);
    }
    let was_unblocked = classify_unblocked(rec.read_id.as_slice(), rec.has_duplex_tag, ids);
    match route(cfg.split_type, was_unblocked) {
        None => Ok(RecordAction::Skip),
        Some(dest) => match cfg.emit_type {
            EmitType::Bam => Ok(RecordAction::WriteBam(dest)),
            EmitType::Fasta => Ok(
                RecordAction::WriteText(
                    dest,
                    encode_fasta_record(rec.read_id.as_slice(), rec.seq.as_slice()),
                ),
            ),
            EmitType::Fastq => match encode_fastq_record(
                rec.read_id.as_slice(),
                rec.seq.as_slice(),
                rec.quals.as_slice(),
            ) {
                Ok(bytes) => Ok(RecordAction::WriteText(dest, bytes)),
                Err(e) => Err(e),
            },
        },
    }
}

/// The phases of one run: the input is opened, its global header is
/// decoded, records stream through one at a time, and the run drains when
/// the decoder reports the end of the record stream.
#[derive(Debug, Clone, Copy, PartialEq, Eq, Structural)]
pub enum PipelineState {
    /// The input file is open; nothing is decoded yet.
    Init,
    /// The global alignment header is decoded; binary destinations can be
    /// constructed.
    HeaderRead,
    /// Records are being decoded and routed.
    Streaming,
    /// The end of the record stream was reached; terminal.
    Drained,
}

/// What the input decoder reports to the run.
#[derive(Debug, Clone, Copy, PartialEq, Eq, Structural)]
pub enum PipelineEvent {
    /// The global alignment header was decoded.
    HeaderDecoded,
    /// One record was decoded.
    RecordDecoded,
    /// The designated end marker: no more records.
    EndOfInput,
}

/// The run's phase transitions: the header is decoded exactly once, before
/// any record; the end marker drains the run; the drained phase is
/// terminal. Any other combination is invalid.
pub open spec fn spec_pipeline_step(state: PipelineState, event: PipelineEvent) -> Option<
    PipelineState,
> {
    match (state, event) {
        (PipelineState::Init, PipelineEvent::HeaderDecoded) => Some(PipelineState::HeaderRead),
        (PipelineState::HeaderRead, PipelineEvent::RecordDecoded) => Some(PipelineState::Streaming),
        (PipelineState::HeaderRead, PipelineEvent::EndOfInput) => Some(PipelineState::Drained),
        (PipelineState::Streaming, PipelineEvent::RecordDecoded) => Some(PipelineState::Streaming),
        (PipelineState::Streaming, PipelineEvent::EndOfInput) => Some(PipelineState::Drained),
        _ => None,
    }
}

/// Advance the run by one decoder event.
pub fn pipeline_step(state: PipelineState, event: PipelineEvent) -> (next: Option<PipelineState>)
    ensures
        next == spec_pipeline_step(state, event),
{
    match (state, event) {
        (PipelineState::Init, PipelineEvent::HeaderDecoded) => Some(PipelineState::HeaderRead),
        (PipelineState::HeaderRead, PipelineEvent::RecordDecoded) => Some(PipelineState::Streaming),
        (PipelineState::HeaderRead, PipelineEvent::EndOfInput) => Some(PipelineState::Drained),
        (PipelineState::Streaming, PipelineEvent::RecordDecoded) => Some(PipelineState::Streaming),
        (PipelineState::Streaming, PipelineEvent::EndOfInput) => Some(PipelineState::Drained),
        _ => None,
    }
}

/// The bytes one destination accumulates over a record stream under a text
/// output encoding: the text renderings of exactly the records routed to
/// it, in stream order.
pub open spec fn spec_dest_bytes(
    recs: Seq<ReadRecordView>,
    cfg: SplitConfig,
    ids: Set<Seq<u8>>,
    qual_exceeds: Seq<bool>,
    dest: Destination,
) -> Seq<u8>
    recommends
        cfg.emit_type != EmitType::Bam,
        recs.len() == qual_exceeds.len(),
    decreases recs.len(),
{
    if recs.len() == 0 {
        Seq::<u8>::empty()
    } else {
        spec_dest_bytes(recs.drop_last(), cfg, ids, qual_exceeds.drop_last(), dest) + (
        if spec_record_route(recs.last(), cfg, ids, qual_exceeds.last()) == Some(dest) {
            spec_text_record(recs.last(), cfg.emit_type)
        } else {
            Seq::<u8>::empty()
        })
    }
}

/// Whether a record stream renders without a format error: under FASTQ
/// output, every record that reaches a destination has base sequence and
/// quality codes of equal length.
pub open spec fn spec_run_ok(
    recs: Seq<ReadRecordView>,
    cfg: SplitConfig,
    ids: Set<Seq<u8>>,
    qual_exceeds: Seq<bool>,
) -> bool {
    cfg.emit_type == EmitType::Fastq ==> forall|i: int|
        0 <= i < recs.len() && #[trigger] spec_record_route(recs[i], cfg, ids, qual_exceeds[i])
            != None::<Destination> ==> recs[i].seq.len() == recs[i].quals.len()
}

/// Run the whole record stream for a text output encoding, accumulating the
/// bytes of the sequenced and the unblocked destination.
///
/// `qual_exceeds[i]` is the caller's quality-comparison outcome for record
/// `i`, as in [`process_record`]. The first record that cannot be rendered
/// stops the run, as a malformed record is fatal.
pub fn split_records(
    records: &Vec<ReadRecord>,
    cfg: &SplitConfig,
    ids: &UnblockedIds,
    qual_exceeds: &Vec<bool>,
) -> (out: Result<(Vec<u8>, Vec<u8>), FormatError>)
    requires
        cfg.emit_type != EmitType::Bam,
        records@.len() == qual_exceeds@.len(),
        cfg.emit_type == EmitType::Fastq ==> forall|i: int|
            0 <= i < records@.len() ==> quals_shiftable(#[trigger] records@[i].quals@),
    ensures
        match out {
            Ok(bytes) => spec_run_ok(rec_views(records@), *cfg, id_set(*ids), qual_exceeds@)
                && bytes.0@ == spec_dest_bytes(
                rec_views(records@),
                *cfg,
                id_set(*ids),
                qual_exceeds@,
                Destination::Sequenced,
            ) && bytes.1@ == spec_dest_bytes(
                rec_views(records@),
                *cfg,
                id_set(*ids),
                qual_exceeds@,
                Destination::Unblocked,
            ),
            Err(e) => !spec_run_ok(rec_views(records@), *cfg, id_set(*ids), qual_exceeds@) && e
                == FormatError::QualityLengthMismatch,
        },
{
    let ghost rv = rec_views(records@);
    let ghost qx = qual_exceeds@;
    let mut seq_out: Vec<u8> = Vec::new();
    let mut unb_out: Vec<u8> = Vec::new();
    let mut i: usize = 0;
    while i < records.len()
        invariant
            i <= records@.len(),
            rv == rec_views(records@),
            qx == qual_exceeds@,
            records@.len() == qual_exceeds@.len(),
            cfg.emit_type != EmitType::Bam,
            cfg.emit_type == EmitType::Fastq ==> forall|j: int|
                0 <= j < records@.len() ==> quals_shiftable(#[trigger] records@[j].quals@),
            seq_out@ == spec_dest_bytes(
                rv.take(i as int),
                *cfg,
                id_set(*ids),
                qx.take(i as int),
                Destination::Sequenced,
            ),
            unb_out@ == spec_dest_bytes(
                rv.take(i as int),
                *cfg,
                id_set(*ids),
                qx.take(i as int),
                Destination::Unblocked,
            ),
            cfg.emit_type == EmitType::Fastq ==> forall|j: int|
                0 <= j < i && #[trigger] spec_record_route(rv[j], *cfg, id_set(*ids), qx[j])
                    != None::<Destination> ==> rv[j].seq.len() == rv[j].quals.len(),
        decreases records@.len() - i,
    {
        proof {
            assert(rec_views(records@)[i as int] == records@[i as int]@);
            assert(rv.take(i + 1).drop_last() =~= rv.take(i as int));
            assert(qx.take(i + 1).drop_last() =~= qx.take(i as int));
            assert(rv.take(i + 1).last() == rv[i as int]);
            assert(qx.take(i + 1).last() == qx[i as int]);
        }
        match process_record(&records[i], cfg, ids, qual_exceeds[i]) {
            Ok(RecordAction::Skip) => {},
            Ok(RecordAction::WriteBam(_)) => {
                proof {
                    assert(false);
                }
            },
            Ok(RecordAction::WriteText(dest, mut bytes)) => match dest {
                Destination::Sequenced => seq_out.append(&mut bytes),
                Destination::Unblocked => unb_out.append(&mut bytes),
            },
            Err(e) => {
                proof {
                    assert(spec_record_route(rv[i as int], *cfg, id_set(*ids), qx[i as int])
                        != None::<Destination>);
                }
                return Err(e);
            },
        }
        i += 1;
    }
    proof {
        assert(rv.take(rv.len() as int) =~= rv);
        assert(qx.take(qx.len() as int) =~= qx);
    }
    Ok((seq_out, unb_out))
}

/// A record that fails the filter reaches no destination, and a record
/// never reaches a destination that its run's split type does not
/// construct: what is routed to an inactive branch is dropped, so at most
/// one destination ever receives a record and no half-initialized writer
/// is ever needed.
pub proof fn lemma_record_route_active(
    rec: ReadRecordView,
    cfg: SplitConfig,
    ids: Set<Seq<u8>>,
    qual_exceeds: bool,
)
    ensures
        !spec_passes_filter(rec, cfg.length_thresh, qual_check_of(cfg, qual_exceeds))
            ==> spec_record_route(rec, cfg, ids, qual_exceeds) == None::<Destination>,
        spec_record_route(rec, cfg, ids, qual_exceeds) == Some(Destination::Sequenced)
            ==> crate::router::has_sequenced_dest(cfg.split_type),
        spec_record_route(rec, cfg, ids, qual_exceeds) == Some(Destination::Unblocked)
            ==> crate::router::has_unblocked_dest(cfg.split_type),
{
}

/// Splitting is deterministic: two runs over identical record streams, with
/// identical configuration, rejected sets, and quality outcomes, accumulate
/// byte-identical contents at each destination.
pub proof fn lemma_run_deterministic(
    recs1: Seq<ReadRecordView>,
    recs2: Seq<ReadRecordView>,
    cfg1: SplitConfig,
    cfg2: SplitConfig,
    ids1: Set<Seq<u8>>,
    ids2: Set<Seq<u8>>,
    qual_exceeds1: Seq<bool>,
    qual_exceeds2: Seq<bool>,
    dest: Destination,
)
    requires
        recs1 == recs2,
        cfg1 == cfg2,
        ids1 == ids2,
        qual_exceeds1 == qual_exceeds2,
    ensures
        spec_dest_bytes(recs1, cfg1, ids1, qual_exceeds1, dest) == spec_dest_bytes(
            recs2,
            cfg2,
            ids2,
            qual_exceeds2,
            dest,
        ),
{
}

} // verus!
