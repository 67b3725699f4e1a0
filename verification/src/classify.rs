//! The output classifier: what the exit status and the error output of a
//! client tool mean for the stage that ran it.

use vstd::prelude::*;
use crate::text::{
    contains, has_prefix_str, has_within_str, lemma_split_lines_len, lines_of, split_lines,
    starts_with, to_chars, trim, trimmed, views,
};

verus! {

/// The client tools.
#[derive(Clone, Copy, Debug, PartialEq, Eq, Structural)]
pub enum Tool {
    PgDump,
    Psql,
    PgRestore,
}

/// The stages that run a tool and look at how it ended.
#[derive(Clone, Copy, Debug, PartialEq, Eq, Structural)]
pub enum ToolStage {
    Backup,
    Cleaning,
    Dumping,
    Restoring,
}

/// What the end of a tool means for its stage.
#[derive(Clone, Copy, Debug, PartialEq, Eq, Structural)]
pub enum Verdict {
    /// The tool did its work.
    Success,
    /// The tool complained, but the run goes on; with the number of warning
    /// lines in its error output.
    SuccessWithWarnings(usize),
    /// The run cannot go on; the error output of the tool says why.
    Fatal,
}

impl Tool {
    /// The name of the tool's program.
    pub open spec fn name_text(self) -> Seq<char> {
        match self {
            Tool::PgDump => "pg_dump"@,
            Tool::Psql => "psql"@,
            Tool::PgRestore => "pg_restore"@,
        }
    }

    /// How a warning line of the tool itself begins.
    pub open spec fn warning_prefix_text(self) -> Seq<char> {
        match self {
            Tool::PgDump => "pg_dump: warning:"@,
            Tool::Psql => "psql: warning:"@,
            Tool::PgRestore => "pg_restore: warning:"@,
        }
    }

    /// The name of the tool's program.
    pub fn name(&self) -> (r: &'static str)
        ensures
            r@ == self.name_text(),
    {
        match self {
            Tool::PgDump => "pg_dump",
            Tool::Psql => "psql",
            Tool::PgRestore => "pg_restore",
        }
    }

    /// How a warning line of the tool itself begins.
    pub fn warning_prefix(&self) -> (r: &'static str)
        ensures
            r@ == self.warning_prefix_text(),
    {
        match self {
            Tool::PgDump => "pg_dump: warning:",
            Tool::Psql => "psql: warning:",
            Tool::PgRestore => "pg_restore: warning:",
        }
    }
}

/// Whether the trimmed line `t` is a warning that `tool` is known to write:
/// it begins with the tool's own warning prefix, or it carries the server's
/// `WARNING:` mark.
pub open spec fn is_warning_line(tool: Tool, t: Seq<char>) -> bool {
    starts_with(t, tool.warning_prefix_text()) || contains(t, "WARNING:"@)
}

/// Whether the trimmed line `t` speaks of an error: it carries the server's
/// `ERROR` mark or a tool's `error:` mark.
pub open spec fn has_error_mark(t: Seq<char>) -> bool {
    contains(t, "ERROR"@) || contains(t, "error:"@)
}

/// Whether `line` reports an error that is no part of a known warning.
pub open spec fn is_fatal_line(tool: Tool, line: Seq<char>) -> bool {
    has_error_mark(trim(line)) && !is_warning_line(tool, trim(line))
}

/// Whether one of `lines` reports an error that is no part of a known
/// warning.
pub open spec fn any_fatal(tool: Tool, lines: Seq<Seq<char>>) -> bool {
    exists|k: int| 0 <= k < lines.len() && is_fatal_line(tool, #[trigger] lines[k])
}

/// The number of known warning lines among `lines`.
pub open spec fn count_warnings(tool: Tool, lines: Seq<Seq<char>>) -> nat
    decreases lines.len(),
{
    if lines.len() == 0 {
        0
    } else {
        count_warnings(tool, lines.drop_last()) + if is_warning_line(tool, trim(lines.last())) {
            1nat
        } else {
            0nat
        }
    }
}

/// What the end of `tool` means for `stage`.
///
/// A tool that exits with status zero succeeded. One that did not:
/// - in the dump stage, is fatal;
/// - in the restore stage, is fatal if a line of its error output reports
///   an error that is no part of a known warning, and is a success with
///   warnings otherwise;
/// - in the backup and cleaning stages, is a success with warnings: those
///   stages are safety nets that the clone does not depend on.
pub open spec fn verdict_of(stage: ToolStage, tool: Tool, exited_zero: bool, stderr: Seq<char>)
    -> Verdict {
    let lines = split_lines(stderr);
    if exited_zero {
        Verdict::Success
    } else {
        match stage {
            ToolStage::Dumping => Verdict::Fatal,
            ToolStage::Restoring => if any_fatal(tool, lines) {
                Verdict::Fatal
            } else {
                Verdict::SuccessWithWarnings(count_warnings(tool, lines) as usize)
            },
            ToolStage::Backup => Verdict::SuccessWithWarnings(count_warnings(tool, lines) as usize),
            ToolStage::Cleaning => Verdict::SuccessWithWarnings(
                count_warnings(tool, lines) as usize,
            ),
        }
    }
}

/// Whether the trimmed line `t` is a warning that `tool` is known to write.
pub fn line_is_warning(tool: Tool, t: &Vec<char>) -> (r: bool)
    ensures
        r == is_warning_line(tool, t@),
{
    has_prefix_str(t, tool.warning_prefix()) || has_within_str(t, "WARNING:")
}

/// Whether the trimmed line `t` speaks of an error.
pub fn line_has_error_mark(t: &Vec<char>) -> (r: bool)
    ensures
        r == has_error_mark(t@),
{
    has_within_str(t, "ERROR") || has_within_str(t, "error:")
}

/// What the end of `tool` means for `stage`; see `verdict_of`.
pub fn classify(stage: ToolStage, tool: Tool, exited_zero: bool, stderr: &str) -> (r: Verdict)
    ensures
        r == verdict_of(stage, tool, exited_zero, stderr@),
{
    if exited_zero {
        return Verdict::Success;
    }
    if stage == ToolStage::Dumping {
        return Verdict::Fatal;
    }
    let chars = to_chars(stderr);
    let lines = lines_of(&chars);
    let ghost all = views(lines@);
    let mut warnings: usize = 0;
    let mut fatal = false;
    let mut i: usize = 0;
    proof {
        assert(all.take(0) =~= Seq::<Seq<char>>::empty());
    }
    while i < lines.len()
        invariant
            i <= lines.len(),
            all == views(lines@),
            warnings == count_warnings(tool, all.take(i as int)),
            warnings <= i,
            fatal == any_fatal(tool, all.take(i as int)),
        decreases lines.len() - i,
    {
        let t = trimmed(&lines[i]);
        let warning = line_is_warning(tool, &t);
        let ghost before = all.take(i as int);
        let ghost after = all.take(i + 1);
        proof {
            assert(after.drop_last() =~= before);
            assert(after.last() == lines@[i as int]@);
            if any_fatal(tool, before) {
                let k = choose|k: int| 0 <= k < before.len() && is_fatal_line(tool, before[k]);
                assert(after[k] == before[k]);
            }
            if any_fatal(tool, after) && !is_fatal_line(tool, after.last()) {
                let k = choose|k: int| 0 <= k < after.len() && is_fatal_line(tool, after[k]);
                assert(before[k] == after[k]);
            }
        }
        if warning {
            warnings += 1;
        } else if line_has_error_mark(&t) {
            proof {
                assert(is_fatal_line(tool, after[i as int]));
            }
            fatal = true;
        }
        i += 1;
    }
    proof {
        assert(all.take(lines@.len() as int) =~= all);
    }
    if fatal && stage == ToolStage::Restoring {
        Verdict::Fatal
    } else {
        Verdict::SuccessWithWarnings(warnings)
    }
}

/// Whether the error output `stderr` holds warnings of `tool` and nothing
/// else: every line is blank or a known warning, and one at least is a
/// warning.
pub open spec fn only_warnings(tool: Tool, stderr: Seq<char>) -> bool {
    let lines = split_lines(stderr);
    &&& forall|k: int|
        0 <= k < lines.len() ==> trim(#[trigger] lines[k]).len() == 0 || is_warning_line(
            tool,
            trim(lines[k]),
        )
    &&& exists|k: int| 0 <= k < lines.len() && is_warning_line(tool, trim(#[trigger] lines[k]))
}

/// There are at most as many warning lines as lines, and at least one where
/// some line is a warning.
pub proof fn lemma_count_warnings(tool: Tool, lines: Seq<Seq<char>>)
    ensures
        count_warnings(tool, lines) <= lines.len(),
        (exists|k: int| 0 <= k < lines.len() && is_warning_line(tool, trim(#[trigger] lines[k])))
            ==> count_warnings(tool, lines) > 0,
    decreases lines.len(),
{
    if lines.len() > 0 {
        let front = lines.drop_last();
        lemma_count_warnings(tool, front);
        if exists|k: int| 0 <= k < lines.len() && is_warning_line(tool, trim(#[trigger] lines[k])) {
            let k = choose|k: int|
                0 <= k < lines.len() && is_warning_line(tool, trim(#[trigger] lines[k]));
            if k < front.len() {
                assert(front[k] == lines[k]);
            }
        }
    }
}

/// A restore that exits with a status other than zero, with an error output
/// that holds only known warnings, is a success with warnings, and the
/// number of warnings is not zero.
pub proof fn lemma_warnings_only_is_success(tool: Tool, stderr: Seq<char>)
    requires
        only_warnings(tool, stderr),
        stderr.len() <= usize::MAX,
    ensures
        verdict_of(ToolStage::Restoring, tool, false, stderr) matches Verdict::SuccessWithWarnings(
            n,
        ) && n > 0 && n == count_warnings(tool, split_lines(stderr)),
{
    let lines = split_lines(stderr);
    lemma_split_lines_len(stderr);
    lemma_count_warnings(tool, lines);
    assert(!any_fatal(tool, lines)) by {
        reveal_strlit("ERROR");
        reveal_strlit("error:");
        assert forall|k: int| 0 <= k < lines.len() implies !is_fatal_line(
            tool,
            #[trigger] lines[k],
        ) by {
            let t = trim(lines[k]);
            if t.len() == 0 {
                assert(!contains(t, "ERROR"@));
                assert(!contains(t, "error:"@));
            }
        }
    }
}

} // verus!
