//! Choice of extraction path for a validated transform chain.
//!
//! The innermost format decides how its bytes must be presented: a lone zip
//! archive is read in place through random access; tar streams entry by
//! entry; zip nested under compression layers, and sevenzip always, need the
//! whole decoded image in memory; rar needs a real file path; a chain with no
//! archive format at all decodes to a single output file. Materializing an
//! unbounded decoded image in memory is only ever done behind a confirmation
//! prompt when the chain has more than one element.

use crate::format::FormatDescriptor;
use crate::format::TerminalFormat;
use vstd::prelude::*;

verus! {

/// The extraction path an input chain calls for.
#[derive(Clone, Copy, Debug, PartialEq, Eq, Structural)]
pub enum ExtractionPlan {
    /// No archive format: decode the layers and write one output file.
    SingleFile,
    /// A lone seek-requiring archive: random access on the input file itself,
    /// no decoding pass and no full-file buffering.
    SeekableArchive,
    /// A forward-only archive: extract entry by entry straight from the
    /// decoder chain.
    StreamingArchive,
    /// The decoded image is materialized in memory before the archive is
    /// opened; `guarded` says whether a confirmation prompt must come first.
    InMemoryArchive { format: TerminalFormat, guarded: bool },
    /// A path-requiring archive: extract from the original input file, or,
    /// when layers wrap it, from a temporary file the decoded bytes are
    /// spooled to.
    SpooledArchive { via_temp: bool },
}

/// The path selected for a descriptor: tar streams; zip alone is seekable,
/// nested it is buffered behind the prompt; sevenzip is always buffered, with
/// the prompt only when nested; rar goes through a real file path, the
/// original one when alone, a temporary one when nested; a layer-only chain
/// decodes to a single file.
pub open spec fn plan_of(d: FormatDescriptor) -> ExtractionPlan {
    match d.terminal {
        None => ExtractionPlan::SingleFile,
        Some(TerminalFormat::Tar) => ExtractionPlan::StreamingArchive,
        Some(TerminalFormat::Zip) => {
            if d.layers@.len() == 0 {
                ExtractionPlan::SeekableArchive
            } else {
                ExtractionPlan::InMemoryArchive { format: TerminalFormat::Zip, guarded: true }
            }
        },
        Some(TerminalFormat::SevenZip) => ExtractionPlan::InMemoryArchive {
            format: TerminalFormat::SevenZip,
            guarded: d.layers@.len() > 0,
        },
        Some(TerminalFormat::Rar) => ExtractionPlan::SpooledArchive {
            via_temp: d.layers@.len() > 0,
        },
    }
}

/// Selects the extraction path for a validated descriptor.
pub fn plan_extraction(d: &FormatDescriptor) -> (p: ExtractionPlan)
    ensures
        p == plan_of(*d),
{
    match d.terminal {
        None => ExtractionPlan::SingleFile,
        Some(TerminalFormat::Tar) => ExtractionPlan::StreamingArchive,
        Some(TerminalFormat::Zip) => {
            if d.layers.len() == 0 {
                ExtractionPlan::SeekableArchive
            } else {
                ExtractionPlan::InMemoryArchive { format: TerminalFormat::Zip, guarded: true }
            }
        },
        Some(TerminalFormat::SevenZip) => ExtractionPlan::InMemoryArchive {
            format: TerminalFormat::SevenZip,
            guarded: d.layers.len() > 0,
        },
        Some(TerminalFormat::Rar) => ExtractionPlan::SpooledArchive {
            via_temp: d.layers.len() > 0,
        },
    }
}

/// The number of produced files reported to the caller: single-layer
/// decompression always reports exactly one file; an archive path reports
/// exactly the count of entries its extractor wrote.
pub open spec fn spec_reported_count(p: ExtractionPlan, extracted: u64) -> u64 {
    if p is SingleFile {
        1u64
    } else {
        extracted
    }
}

/// Reports the produced-file count for a finished extraction, where
/// `extracted` is the entry count the archive extractor returned.
pub fn reported_count(p: &ExtractionPlan, extracted: u64) -> (n: u64)
    ensures
        n == spec_reported_count(*p, extracted),
        *p is SingleFile ==> n == 1,
        !(*p is SingleFile) ==> n == extracted,
{
    match p {
        ExtractionPlan::SingleFile => 1,
        _ => extracted,
    }
}

/// A chain of exactly one seek-requiring archive format takes the seekable
/// path, which reads the input in place.
pub proof fn lemma_lone_zip_is_seekable(d: FormatDescriptor)
    requires
        d.terminal == Some(TerminalFormat::Zip),
        d.layers@.len() == 0,
    ensures
        plan_of(d) == ExtractionPlan::SeekableArchive,
{
}

/// A seek-requiring or whole-buffer-required archive format nested under at
/// least one layer takes the in-memory path, and that path is guarded by a
/// confirmation prompt.
pub proof fn lemma_nested_buffering_is_guarded(d: FormatDescriptor)
    requires
        d.layers@.len() >= 1,
        d.terminal == Some(TerminalFormat::Zip) || d.terminal == Some(TerminalFormat::SevenZip),
    ensures
        plan_of(d) matches ExtractionPlan::InMemoryArchive { format, guarded } && guarded && Some(
            format,
        ) == d.terminal,
{
}

/// A path-requiring archive format alone reads the original input file; the
/// same format nested under layers goes through a temporary spooled file.
pub proof fn lemma_spooled_path_choice(d: FormatDescriptor)
    requires
        d.terminal == Some(TerminalFormat::Rar),
    ensures
        plan_of(d) == (ExtractionPlan::SpooledArchive { via_temp: d.layers@.len() > 0 }),
{
}

} // verus!
