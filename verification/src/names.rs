//! Output file naming.
//!
//! Both destinations follow one fixed pattern: an optional prefix followed
//! by a dot, the category (`sequenced` or `unblocked`), a dot, the extension
//! of the output encoding, and `.gz` for gzip-compressed text output.
//! Binary alignment output always carries its own block compression, so it
//! never takes the `.gz` suffix.

use crate::config::{CompressionType, EmitType};
use vstd::prelude::*;
use vstd::string::StringExecFns;

verus! {

/// The file extension of an output encoding.
pub open spec fn spec_extension(emit: EmitType) -> Seq<char> {
    match emit {
        EmitType::Bam => "bam"@,
        EmitType::Fastq => "fastq"@,
        EmitType::Fasta => "fasta"@,
    }
}

/// The compression suffix: `.gz` for gzip-compressed text output, nothing
/// otherwise.
pub open spec fn spec_gz_suffix(emit: EmitType, compression: CompressionType) -> Seq<char> {
    if emit != EmitType::Bam && compression == CompressionType::Gzipped {
        ".gz"@
    } else {
        Seq::<char>::empty()
    }
}

/// One destination's file name: `{prefix.}{category}.{ext}{.gz}`, with no
/// dot-prefix when the prefix is empty.
pub open spec fn spec_output_name(
    prefix: Seq<char>,
    category: Seq<char>,
    emit: EmitType,
    compression: CompressionType,
) -> Seq<char> {
    (if prefix.len() == 0 {
        Seq::<char>::empty()
    } else {
        prefix + "."@
    }) + category + "."@ + spec_extension(emit) + spec_gz_suffix(emit, compression)
}

/// Build the names of the sequenced and unblocked destination files.
pub fn output_filenames(prefix: &str, emit: EmitType, compression: CompressionType) -> (names: (
    String,
    String,
))
    ensures
        names.0@ == spec_output_name(prefix@, "sequenced"@, emit, compression),
        names.1@ == spec_output_name(prefix@, "unblocked"@, emit, compression),
{
    let seq_name = output_filename(prefix, "sequenced", emit, compression);
    let unb_name = output_filename(prefix, "unblocked", emit, compression);
    (seq_name, unb_name)
}

fn output_filename(
    prefix: &str,
    category: &str,
    emit: EmitType,
    compression: CompressionType,
) -> (name: String)
    ensures
        name@ == spec_output_name(prefix@, category@, emit, compression),
{
    let mut name = String::new();
    if !prefix.is_empty() {
        name.append(prefix);
        name.append(".");
    }
    name.append(category);
    name.append(".");
    match emit {
        EmitType::Bam => name.append("bam"),
        EmitType::Fastq => name.append("fastq"),
        EmitType::Fasta => name.append("fasta"),
    }
    if emit != EmitType::Bam && compression == CompressionType::Gzipped {
        name.append(".gz");
    }
    proof {
        assert(name@ =~= spec_output_name(prefix@, category@, emit, compression));
    }
    name
}

} // verus!
