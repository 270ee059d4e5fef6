//! The ordered side-effecting steps that carry an extraction out.
//!
//! For a chosen extraction path this module fixes the exact sequence of
//! steps the surrounding binary performs, and the rules the steps obey: a
//! confirmation prompt stands before anything is materialized or written
//! when the path calls for one, a spooled temporary file is removed after
//! the extractor returns, and a subdirectory that already exists does not
//! stop the extraction. The runner performs the steps in order and stops at
//! the first failure or at a declined prompt; a decline is a successful
//! no-op, with nothing yet created.

use crate::format::CompressionFormat;
use crate::format::DescriptorError;
use crate::format::FormatDescriptor;
use crate::format::TerminalFormat;
use crate::format::as_terminal;
use crate::format::valid_format_seq;
use crate::plan::ExtractionPlan;
use crate::plan::plan_of;
use crate::plan::plan_extraction;
use vstd::prelude::*;

verus! {

/// Where the archive extractor takes its bytes from.
#[derive(Clone, Copy, Debug, PartialEq, Eq, Structural)]
pub enum ArchiveSource {
    /// A random-access handle opened on the input file itself.
    SeekableHandle,
    /// The forward-only decoder chain, entry by entry.
    DecoderChain,
    /// The fully decoded image held in memory.
    MemoryBuffer,
    /// The original input path, handed over unchanged.
    InputPath,
    /// The temporary file the decoded bytes were spooled to.
    TempFilePath,
}

/// One side-effecting step of an extraction, in the order the runner
/// performs them.
#[derive(Clone, Copy, Debug, PartialEq, Eq, Structural)]
pub enum Step {
    /// Open the input file and wrap it in the chain's layer decoders.
    BuildDecoderChain,
    /// Ask whether the single output file may be created; declining ends the
    /// operation successfully with nothing written.
    AskOutputFile,
    /// Copy the decoded stream into the single output file.
    CopyChainToOutputFile,
    /// Open the input file directly as a random-access archive.
    OpenSeekableArchive,
    /// Warn that the decoded image will be held in memory whole and ask to
    /// continue; declining ends the operation successfully with nothing
    /// created.
    WarnMemoryAndConfirm,
    /// Drain the decoder chain into an in-memory buffer.
    DrainChainToMemory,
    /// Spool the decoder chain into a fresh temporary file.
    SpoolChainToTempFile,
    /// Create the dedicated subdirectory; one that already exists is kept.
    CreateSubdir,
    /// Run the archive extractor into the subdirectory.
    ExtractArchive(ArchiveSource),
    /// Remove the spooled temporary file, whether extraction succeeded or
    /// failed.
    RemoveTempFile,
}

/// A step that creates, writes or materializes something; every other step
/// only opens handles or asks.
pub open spec fn effectful(s: Step) -> bool {
    match s {
        Step::CopyChainToOutputFile => true,
        Step::DrainChainToMemory => true,
        Step::SpoolChainToTempFile => true,
        Step::CreateSubdir => true,
        Step::ExtractArchive(_) => true,
        _ => false,
    }
}

/// The step sequence each extraction path performs.
pub open spec fn script_of(p: ExtractionPlan) -> Seq<Step> {
    match p {
        ExtractionPlan::SingleFile => seq![
            Step::BuildDecoderChain,
            Step::AskOutputFile,
            Step::CopyChainToOutputFile,
        ],
        ExtractionPlan::SeekableArchive => seq![
            Step::OpenSeekableArchive,
            Step::CreateSubdir,
            Step::ExtractArchive(ArchiveSource::SeekableHandle),
        ],
        ExtractionPlan::StreamingArchive => seq![
            Step::BuildDecoderChain,
            Step::CreateSubdir,
            Step::ExtractArchive(ArchiveSource::DecoderChain),
        ],
        ExtractionPlan::InMemoryArchive { guarded, .. } => {
            if guarded {
                seq![
                    Step::BuildDecoderChain,
                    Step::WarnMemoryAndConfirm,
                    Step::DrainChainToMemory,
                    Step::CreateSubdir,
                    Step::ExtractArchive(ArchiveSource::MemoryBuffer),
                ]
            } else {
                seq![
                    Step::BuildDecoderChain,
                    Step::DrainChainToMemory,
                    Step::CreateSubdir,
                    Step::ExtractArchive(ArchiveSource::MemoryBuffer),
                ]
            }
        },
        ExtractionPlan::SpooledArchive { via_temp } => {
            if via_temp {
                seq![
                    Step::BuildDecoderChain,
                    Step::SpoolChainToTempFile,
                    Step::CreateSubdir,
                    Step::ExtractArchive(ArchiveSource::TempFilePath),
                    Step::RemoveTempFile,
                ]
            } else {
                seq![Step::CreateSubdir, Step::ExtractArchive(ArchiveSource::InputPath)]
            }
        },
    }
}

/// The extractor a path needs is not compiled in; nothing was touched.
#[derive(Clone, Copy, Debug, PartialEq, Eq, Structural)]
pub struct UnsupportedFormat {
    pub format: TerminalFormat,
}

/// Lays out the steps for a chosen extraction path, in the order the runner
/// must perform them. The path-requiring extractor is optional; when it is
/// not available and the plan needs it, this fails up front, before any step
/// could touch the filesystem.
pub fn build_script(p: &ExtractionPlan, rar_available: bool) -> (r: Result<
    Vec<Step>,
    UnsupportedFormat,
>)
    ensures
        r is Err <==> ((*p matches ExtractionPlan::SpooledArchive { .. }) && !rar_available),
        r matches Ok(s) ==> s@ == script_of(*p),
        r matches Err(e) ==> e.format == TerminalFormat::Rar,
{
    let mut s: Vec<Step> = Vec::new();
    match *p {
        ExtractionPlan::SingleFile => {
            s.push(Step::BuildDecoderChain);
            s.push(Step::AskOutputFile);
            s.push(Step::CopyChainToOutputFile);
        },
        ExtractionPlan::SeekableArchive => {
            s.push(Step::OpenSeekableArchive);
            s.push(Step::CreateSubdir);
            s.push(Step::ExtractArchive(ArchiveSource::SeekableHandle));
        },
        ExtractionPlan::StreamingArchive => {
            s.push(Step::BuildDecoderChain);
            s.push(Step::CreateSubdir);
            s.push(Step::ExtractArchive(ArchiveSource::DecoderChain));
        },
        ExtractionPlan::InMemoryArchive { guarded, .. } => {
            s.push(Step::BuildDecoderChain);
            if guarded {
                s.push(Step::WarnMemoryAndConfirm);
            }
            s.push(Step::DrainChainToMemory);
            s.push(Step::CreateSubdir);
            s.push(Step::ExtractArchive(ArchiveSource::MemoryBuffer));
        },
        ExtractionPlan::SpooledArchive { via_temp } => {
            if !rar_available {
                return Err(UnsupportedFormat { format: TerminalFormat::Rar });
            }
            if via_temp {
                s.push(Step::BuildDecoderChain);
                s.push(Step::SpoolChainToTempFile);
                s.push(Step::CreateSubdir);
                s.push(Step::ExtractArchive(ArchiveSource::TempFilePath));
                s.push(Step::RemoveTempFile);
            } else {
                s.push(Step::CreateSubdir);
                s.push(Step::ExtractArchive(ArchiveSource::InputPath));
            }
        },
    }
    proof {
        assert(s@ =~= script_of(*p));
    }
    Ok(s)
}

/// Governs whether a potentially memory-unsafe or overwrite-risking
/// operation proceeds.
#[derive(Clone, Copy, Debug, PartialEq, Eq, Structural)]
pub enum ConfirmationPolicy {
    /// Proceed without asking.
    AlwaysAllow,
    /// Decline without asking.
    NeverAllow,
    /// Ask interactively.
    AskInteractively,
}

/// Whether a gated operation proceeds: always under `AlwaysAllow`, never
/// under `NeverAllow`, and exactly when the prompt was answered yes under
/// `AskInteractively` (`user_agreed` is that answer, and counts for nothing
/// otherwise).
pub fn confirmation_granted(p: &ConfirmationPolicy, user_agreed: bool) -> (b: bool)
    ensures
        b == (*p is AlwaysAllow || (*p is AskInteractively && user_agreed)),
{
    match p {
        ConfirmationPolicy::AlwaysAllow => true,
        ConfirmationPolicy::NeverAllow => false,
        ConfirmationPolicy::AskInteractively => user_agreed,
    }
}

/// How the attempt to create the dedicated subdirectory ended.
#[derive(Clone, Copy, Debug, PartialEq, Eq, Structural)]
pub enum SubdirCreation {
    /// The subdirectory was created now.
    Created,
    /// The subdirectory was already there; it is kept as it is.
    AlreadyExisted,
    /// Creation failed for another reason.
    Failed,
}

/// Whether extraction goes on after the subdirectory creation attempt: a
/// subdirectory that already exists is tolerated, so creation is idempotent;
/// only a creation failure of another kind stops the extraction.
pub fn subdir_allows_extraction(c: &SubdirCreation) -> (b: bool)
    ensures
        b == !(*c is Failed),
        *c is AlreadyExisted ==> b,
{
    match c {
        SubdirCreation::Failed => false,
        _ => true,
    }
}

/// Why no extraction plan could be made for a raw chain.
#[derive(Clone, Copy, Debug, PartialEq, Eq, Structural)]
pub enum UnpackError {
    /// The chain was empty or had a terminal format before the end.
    InvalidChain(DescriptorError),
    /// The chain needs an extractor that is not compiled in.
    FormatNotSupported(UnsupportedFormat),
}

/// A complete decision for one input: the validated chain, the extraction
/// path it calls for, and the steps that carry it out.
#[derive(Debug)]
pub struct UnpackDecision {
    pub descriptor: FormatDescriptor,
    pub plan: ExtractionPlan,
    pub script: Vec<Step>,
}

/// Decides a whole extraction up front: validates the raw chain, outermost
/// format first, selects the extraction path, and lays out its steps. Fails
/// exactly on an empty chain, a terminal format anywhere but last, or a
/// path-requiring format whose extractor is not available.
pub fn decide_unpack(formats: &Vec<CompressionFormat>, rar_available: bool) -> (r: Result<
    UnpackDecision,
    UnpackError,
>)
    ensures
        match r {
            Ok(u) => {
                &&& valid_format_seq(formats@)
                &&& u.descriptor.well_formed()
                &&& u.descriptor.describes(formats@)
                &&& u.plan == plan_of(u.descriptor)
                &&& u.script@ == script_of(u.plan)
                &&& ((u.plan matches ExtractionPlan::SpooledArchive { .. }) ==> rar_available)
            },
            Err(UnpackError::InvalidChain(DescriptorError::Empty)) => formats@.len() == 0,
            Err(UnpackError::InvalidChain(DescriptorError::MisplacedTerminal)) => formats@.len()
                > 0 && !valid_format_seq(formats@),
            Err(UnpackError::FormatNotSupported(e)) => {
                &&& valid_format_seq(formats@)
                &&& as_terminal(formats@.last()) == Some(TerminalFormat::Rar)
                &&& !rar_available
                &&& e.format == TerminalFormat::Rar
            },
        },
{
    let descriptor = match FormatDescriptor::from_formats(formats) {
        Ok(d) => d,
        Err(e) => {
            return Err(UnpackError::InvalidChain(e));
        },
    };
    let plan = plan_extraction(&descriptor);
    let script = match build_script(&plan, rar_available) {
        Ok(s) => s,
        Err(e) => {
            return Err(UnpackError::FormatNotSupported(e));
        },
    };
    Ok(UnpackDecision { descriptor, plan, script })
}

/// A chain of exactly one seek-requiring archive format is read in place:
/// its steps never buffer the file in memory, never spool it, and raise no
/// prompt.
pub proof fn lemma_seekable_script_reads_in_place(d: FormatDescriptor)
    requires
        d.terminal == Some(TerminalFormat::Zip),
        d.layers@.len() == 0,
    ensures
        script_of(plan_of(d)) =~= seq![
            Step::OpenSeekableArchive,
            Step::CreateSubdir,
            Step::ExtractArchive(ArchiveSource::SeekableHandle),
        ],
        forall|i: int|
            0 <= i < script_of(plan_of(d)).len() ==> #[trigger] script_of(plan_of(d))[i]
                != Step::DrainChainToMemory && script_of(plan_of(d))[i]
                != Step::SpoolChainToTempFile && script_of(plan_of(d))[i]
                != Step::WarnMemoryAndConfirm,
{
}

/// A seek-requiring or whole-buffer-required archive format nested under at
/// least one layer raises the confirmation prompt as its second step, and
/// nothing is created, written or materialized by any step before it.
pub proof fn lemma_guard_precedes_effects(d: FormatDescriptor)
    requires
        d.layers@.len() >= 1,
        d.terminal == Some(TerminalFormat::Zip) || d.terminal == Some(TerminalFormat::SevenZip),
    ensures
        script_of(plan_of(d))[1] == Step::WarnMemoryAndConfirm,
        forall|i: int|
            0 <= i < script_of(plan_of(d)).len() && effectful(#[trigger] script_of(plan_of(d))[i])
                ==> i >= 2,
{
}

/// A path-requiring archive format alone hands the extractor the original
/// input path and touches no temporary file; nested under layers, it spools
/// to a temporary file before the subdirectory is created, extracts from
/// that file, and removes it afterwards, as the final step.
pub proof fn lemma_spooled_script_paths(d: FormatDescriptor)
    requires
        d.terminal == Some(TerminalFormat::Rar),
    ensures
        d.layers@.len() == 0 ==> script_of(plan_of(d)) =~= seq![
            Step::CreateSubdir,
            Step::ExtractArchive(ArchiveSource::InputPath),
        ],
        d.layers@.len() > 0 ==> script_of(plan_of(d)) =~= seq![
            Step::BuildDecoderChain,
            Step::SpoolChainToTempFile,
            Step::CreateSubdir,
            Step::ExtractArchive(ArchiveSource::TempFilePath),
            Step::RemoveTempFile,
        ],
        d.layers@.len() > 0 ==> script_of(plan_of(d)).last() == Step::RemoveTempFile,
{
}

} // verus!
