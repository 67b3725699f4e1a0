//! The rules that turn a clone type and a host into choices: which archive
//! format the dump has, how the destination is cleaned, how the dump is
//! restored, and how many jobs a parallel restore runs.

use vstd::prelude::*;
use crate::types::CloneType;

verus! {

/// The format of a dump.
#[derive(Clone, Copy, Debug, PartialEq, Eq, Structural)]
pub enum DumpFormat {
    /// The compressed archive of the dump tool, which the restore tool can
    /// read selectively and in parallel.
    Custom,
    /// A plain SQL script, which the SQL shell can run.
    Plain,
}

/// How a dump gets into the destination.
#[derive(Clone, Copy, Debug, PartialEq, Eq, Structural)]
pub enum RestoreMethod {
    /// The restore tool reads the archive with several jobs at once.
    ParallelRestore,
    /// The SQL shell runs the dump between two blocks of session settings.
    TunedScript,
}

/// How the destination is emptied before a clone.
#[derive(Clone, Copy, Debug, PartialEq, Eq, Structural)]
pub enum CleaningMode {
    /// Every table is emptied and stays.
    Truncate,
    /// Every table is removed.
    Drop,
}

/// The least number of jobs of a parallel restore.
pub const MIN_RESTORE_JOBS: usize = 2;

/// The greatest number of jobs of a parallel restore.
pub const MAX_RESTORE_JOBS: usize = 8;

/// The format of the dump of a clone: plain for a data-only clone, custom
/// for every other.
pub open spec fn dump_format_of(clone_type: CloneType) -> DumpFormat {
    if clone_type == CloneType::Data {
        DumpFormat::Plain
    } else {
        DumpFormat::Custom
    }
}

/// How a dump of the given format is restored.
pub open spec fn restore_method_of(format: DumpFormat) -> RestoreMethod {
    match format {
        DumpFormat::Custom => RestoreMethod::ParallelRestore,
        DumpFormat::Plain => RestoreMethod::TunedScript,
    }
}

/// How the destination of a clone is cleaned: a data-only clone needs the
/// tables that are there, so they are emptied; every other clone removes
/// them.
pub open spec fn cleaning_mode_of(clone_type: CloneType) -> CleaningMode {
    if clone_type == CloneType::Data {
        CleaningMode::Truncate
    } else {
        CleaningMode::Drop
    }
}

/// The number of restore jobs on a host that reports `available` units of
/// parallelism: that number, but at least `MIN_RESTORE_JOBS` and at most
/// `MAX_RESTORE_JOBS`.
pub open spec fn restore_jobs_of(available: usize) -> usize {
    if available < MIN_RESTORE_JOBS {
        MIN_RESTORE_JOBS
    } else if available > MAX_RESTORE_JOBS {
        MAX_RESTORE_JOBS
    } else {
        available
    }
}

/// The format of the dump of a clone.
pub fn dump_format(clone_type: CloneType) -> (r: DumpFormat)
    ensures
        r == dump_format_of(clone_type),
        (r == DumpFormat::Plain) <==> (clone_type == CloneType::Data),
{
    match clone_type {
        CloneType::Data => DumpFormat::Plain,
        CloneType::Structure => DumpFormat::Custom,
        CloneType::Both => DumpFormat::Custom,
    }
}

/// How a dump of the given format is restored.
pub fn restore_method(format: DumpFormat) -> (r: RestoreMethod)
    ensures
        r == restore_method_of(format),
{
    match format {
        DumpFormat::Custom => RestoreMethod::ParallelRestore,
        DumpFormat::Plain => RestoreMethod::TunedScript,
    }
}

/// How the destination of a clone is cleaned.
pub fn cleaning_mode(clone_type: CloneType) -> (r: CleaningMode)
    ensures
        r == cleaning_mode_of(clone_type),
        (r == CleaningMode::Truncate) <==> (clone_type == CloneType::Data),
{
    match clone_type {
        CloneType::Data => CleaningMode::Truncate,
        CloneType::Structure => CleaningMode::Drop,
        CloneType::Both => CleaningMode::Drop,
    }
}

/// The number of restore jobs on a host that reports `available` units of
/// parallelism.
pub fn restore_jobs(available: usize) -> (r: usize)
    ensures
        r == restore_jobs_of(available),
        MIN_RESTORE_JOBS <= r <= MAX_RESTORE_JOBS,
        MIN_RESTORE_JOBS <= available <= MAX_RESTORE_JOBS ==> r == available,
{
    if available < MIN_RESTORE_JOBS {
        MIN_RESTORE_JOBS
    } else if available > MAX_RESTORE_JOBS {
        MAX_RESTORE_JOBS
    } else {
        available
    }
}

/// A data-only clone dumps in plain format, restores through the tuned
/// script and cleans by truncation; every other clone dumps in custom
/// format, restores in parallel and cleans by dropping.
pub proof fn lemma_choices_by_clone_type(clone_type: CloneType)
    ensures
        clone_type == CloneType::Data ==> {
            &&& dump_format_of(clone_type) == DumpFormat::Plain
            &&& restore_method_of(dump_format_of(clone_type)) == RestoreMethod::TunedScript
            &&& cleaning_mode_of(clone_type) == CleaningMode::Truncate
        },
        clone_type != CloneType::Data ==> {
            &&& dump_format_of(clone_type) == DumpFormat::Custom
            &&& restore_method_of(dump_format_of(clone_type)) == RestoreMethod::ParallelRestore
            &&& cleaning_mode_of(clone_type) == CleaningMode::Drop
        },
{
}

} // verus!
