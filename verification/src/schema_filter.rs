//! The schema statement filter: removes whole statements of chosen kinds
//! from a plain-text schema dump.
//!
//! The dump is read line by line. A line that opens a statement of a kind
//! that the caller left out is dropped, together with the lines that follow
//! it up to the one that ends the statement. Every other line is kept and
//! written out followed by a line feed.

use vstd::prelude::*;
use crate::text::{
    contains, ends_with_char, from_chars, has_last, has_prefix_str, has_within_str, is_line,
    join_lines, lemma_join_of_split, lemma_split_gives_lines, lemma_split_of_join, lines_of,
    plain_line_ends, split_lines, starts_with, to_chars, trim, trimmed, views,
};

verus! {

/// Which kinds of statements stay in the dump. A kind that is `false` is
/// removed.
#[derive(Clone, Copy, Debug, PartialEq, Eq, Structural)]
pub struct Inclusions {
    pub comments: bool,
    pub indexes: bool,
    pub constraints: bool,
    pub triggers: bool,
    pub sequences: bool,
    pub types: bool,
    pub functions: bool,
    pub views: bool,
}

impl Inclusions {
    /// Every kind stays.
    pub open spec fn everything() -> Inclusions {
        Inclusions {
            comments: true,
            indexes: true,
            constraints: true,
            triggers: true,
            sequences: true,
            types: true,
            functions: true,
            views: true,
        }
    }

    /// Whether every kind stays.
    pub open spec fn keeps_everything(self) -> bool {
        self == Inclusions::everything()
    }

    /// The choice that keeps every kind.
    pub fn all() -> (r: Inclusions)
        ensures
            r == Inclusions::everything(),
    {
        Inclusions {
            comments: true,
            indexes: true,
            constraints: true,
            triggers: true,
            sequences: true,
            types: true,
            functions: true,
            views: true,
        }
    }
}

/// How far the removal of a statement reaches.
#[derive(Clone, Copy, Debug, PartialEq, Eq, Structural)]
pub enum Removal {
    /// Up to the line that ends in a semicolon, the opening line included.
    Statement,
    /// Up to the next line after the opening line that ends in a semicolon:
    /// a function body holds semicolons of its own, so the opening line
    /// never ends the removal.
    Body,
}

/// Whether the trimmed line `t` opens a statement that `inc` leaves out,
/// and how far its removal reaches. The kinds are tried in a fixed order.
pub open spec fn removal(t: Seq<char>, inc: Inclusions) -> Option<Removal> {
    if !inc.comments && starts_with(t, "COMMENT ON"@) {
        Some(Removal::Statement)
    } else if !inc.indexes && (starts_with(t, "CREATE INDEX"@) || starts_with(
        t,
        "CREATE UNIQUE INDEX"@,
    )) {
        Some(Removal::Statement)
    } else if !inc.constraints && ((starts_with(t, "ALTER TABLE"@) && contains(
        t,
        "ADD CONSTRAINT"@,
    )) || contains(t, "FOREIGN KEY"@)) {
        Some(Removal::Statement)
    } else if !inc.sequences && (starts_with(t, "CREATE SEQUENCE"@) || starts_with(
        t,
        "ALTER SEQUENCE"@,
    ) || contains(t, "setval("@)) {
        Some(Removal::Statement)
    } else if !inc.types && starts_with(t, "CREATE TYPE"@) {
        Some(Removal::Statement)
    } else if !inc.functions && (starts_with(t, "CREATE FUNCTION"@) || starts_with(
        t,
        "CREATE OR REPLACE FUNCTION"@,
    ) || starts_with(t, "CREATE PROCEDURE"@) || starts_with(t, "CREATE OR REPLACE PROCEDURE"@)) {
        Some(Removal::Body)
    } else if !inc.views && (starts_with(t, "CREATE VIEW"@) || starts_with(
        t,
        "CREATE OR REPLACE VIEW"@,
    )) {
        Some(Removal::Statement)
    } else if !inc.triggers && starts_with(t, "CREATE TRIGGER"@) {
        Some(Removal::Statement)
    } else {
        None
    }
}

/// What the filter knows after some lines: the lines kept so far, the number
/// of statements removed, and whether it is inside a statement that it
/// removes.
pub struct Scan {
    pub kept: Seq<Seq<char>>,
    pub removed: nat,
    pub skipping: bool,
}

impl Scan {
    /// The state before the first line.
    pub open spec fn start() -> Scan {
        Scan { kept: Seq::empty(), removed: 0, skipping: false }
    }

    /// The state after one more line.
    pub open spec fn step(self, line: Seq<char>, inc: Inclusions) -> Scan {
        let t = trim(line);
        if self.skipping {
            Scan { skipping: !ends_with_char(t, ';'), ..self }
        } else {
            match removal(t, inc) {
                Some(Removal::Statement) => Scan {
                    removed: self.removed + 1,
                    skipping: !ends_with_char(t, ';'),
                    ..self
                },
                Some(Removal::Body) => Scan { removed: self.removed + 1, skipping: true, ..self },
                None => Scan { kept: self.kept.push(line), ..self },
            }
        }
    }
}

/// The state of the filter after all of `lines`.
pub open spec fn scan(lines: Seq<Seq<char>>, inc: Inclusions) -> Scan
    decreases lines.len(),
{
    if lines.len() == 0 {
        Scan::start()
    } else {
        scan(lines.drop_last(), inc).step(lines.last(), inc)
    }
}

/// The dump `content` without the statements that `inc` leaves out.
pub open spec fn filtered_text(content: Seq<char>, inc: Inclusions) -> Seq<char> {
    join_lines(scan(split_lines(content), inc).kept)
}

/// The number of statements that the filter removes from `content`.
pub open spec fn removed_count(content: Seq<char>, inc: Inclusions) -> nat {
    scan(split_lines(content), inc).removed
}

/// What the filter returns: the filtered dump and the number of statements
/// that it removed.
#[derive(Debug)]
pub struct FilteredSchema {
    pub content: String,
    pub excluded: usize,
}

/// Whether the trimmed line `t` opens a statement that `inc` leaves out.
pub fn removal_of(t: &Vec<char>, inc: &Inclusions) -> (r: Option<Removal>)
    ensures
        r == removal(t@, *inc),
{
    if !inc.comments && has_prefix_str(t, "COMMENT ON") {
        Some(Removal::Statement)
    } else if !inc.indexes && (has_prefix_str(t, "CREATE INDEX") || has_prefix_str(
        t,
        "CREATE UNIQUE INDEX",
    )) {
        Some(Removal::Statement)
    } else if !inc.constraints && ((has_prefix_str(t, "ALTER TABLE") && has_within_str(
        t,
        "ADD CONSTRAINT",
    )) || has_within_str(t, "FOREIGN KEY")) {
        Some(Removal::Statement)
    } else if !inc.sequences && (has_prefix_str(t, "CREATE SEQUENCE") || has_prefix_str(
        t,
        "ALTER SEQUENCE",
    ) || has_within_str(t, "setval(")) {
        Some(Removal::Statement)
    } else if !inc.types && has_prefix_str(t, "CREATE TYPE") {
        Some(Removal::Statement)
    } else if !inc.functions && (has_prefix_str(t, "CREATE FUNCTION") || has_prefix_str(
        t,
        "CREATE OR REPLACE FUNCTION",
    ) || has_prefix_str(t, "CREATE PROCEDURE") || has_prefix_str(
        t,
        "CREATE OR REPLACE PROCEDURE",
    )) {
        Some(Removal::Body)
    } else if !inc.views && (has_prefix_str(t, "CREATE VIEW") || has_prefix_str(
        t,
        "CREATE OR REPLACE VIEW",
    )) {
        Some(Removal::Statement)
    } else if !inc.triggers && has_prefix_str(t, "CREATE TRIGGER") {
        Some(Removal::Statement)
    } else {
        None
    }
}

/// Removes from the dump `content` the statements that `inc` leaves out.
pub fn filter_text(content: &str, inc: &Inclusions) -> (r: FilteredSchema)
    ensures
        r.content@ == filtered_text(content@, *inc),
        r.excluded == removed_count(content@, *inc),
{
    let chars = to_chars(content);
    let lines = lines_of(&chars);
    let mut out: Vec<char> = Vec::new();
    let mut removed: usize = 0;
    let mut skipping = false;
    let ghost all = views(lines@);
    let mut i: usize = 0;
    proof {
        assert(all.take(0) =~= Seq::<Seq<char>>::empty());
    }
    while i < lines.len()
        invariant
            i <= lines.len(),
            all == views(lines@),
            out@ == join_lines(scan(all.take(i as int), *inc).kept),
            removed == scan(all.take(i as int), *inc).removed,
            removed <= i,
            skipping == scan(all.take(i as int), *inc).skipping,
        decreases lines.len() - i,
    {
        let line = &lines[i];
        let t = trimmed(line);
        let ghost before = scan(all.take(i as int), *inc);
        proof {
            assert(all.take(i + 1).drop_last() =~= all.take(i as int));
            assert(all.take(i + 1).last() == line@);
            assert(scan(all.take(i + 1), *inc) == before.step(line@, *inc));
        }
        if skipping {
            if has_last(&t, ';') {
                skipping = false;
            }
        } else {
            match removal_of(&t, inc) {
                Some(Removal::Statement) => {
                    removed += 1;
                    skipping = !has_last(&t, ';');
                },
                Some(Removal::Body) => {
                    removed += 1;
                    skipping = true;
                },
                None => {
                    let ghost head = out@;
                    let mut j: usize = 0;
                    while j < line.len()
                        invariant
                            j <= line.len(),
                            out@ == head + line@.take(j as int),
                        decreases line.len() - j,
                    {
                        out.push(line[j]);
                        j += 1;
                        proof {
                            assert(line@.take(j as int) =~= line@.take(j - 1).push(line@[j - 1]));
                        }
                    }
                    out.push('\n');
                    proof {
                        assert(line@.take(line@.len() as int) =~= line@);
                        assert(before.kept.push(line@).drop_last() =~= before.kept);
                        assert(out@ =~= head + line@ + seq!['\n']);
                    }
                },
            }
        }
        i += 1;
    }
    proof {
        assert(all.take(lines@.len() as int) =~= all);
    }
    FilteredSchema { content: from_chars(&out), excluded: removed }
}

/// Whether the filter keeps the line `l` when it is not inside a statement
/// that it removes.
pub open spec fn stays(l: Seq<char>, inc: Inclusions) -> bool {
    removal(trim(l), inc) is None
}

/// The filter only removes: every line that it keeps is one of the lines
/// that it read, and none of them opens a statement that `inc` leaves out.
/// It never keeps more lines than it read, and it removes at most one
/// statement per line.
pub proof fn lemma_kept_lines(lines: Seq<Seq<char>>, inc: Inclusions)
    ensures
        scan(lines, inc).kept.len() + scan(lines, inc).removed <= lines.len(),
        forall|k: int|
            0 <= k < scan(lines, inc).kept.len() ==> stays(#[trigger] scan(lines, inc).kept[k], inc),
        forall|k: int|
            0 <= k < scan(lines, inc).kept.len() ==> lines.contains(
                #[trigger] scan(lines, inc).kept[k],
            ),
    decreases lines.len(),
{
    if lines.len() > 0 {
        let before = scan(lines.drop_last(), inc);
        let after = scan(lines, inc);
        lemma_kept_lines(lines.drop_last(), inc);
        assert forall|k: int| 0 <= k < after.kept.len() implies stays(
            #[trigger] after.kept[k],
            inc,
        ) && lines.contains(after.kept[k]) by {
            if k < before.kept.len() {
                assert(after.kept[k] == before.kept[k]);
                let j = choose|j: int|
                    0 <= j < lines.drop_last().len() && lines.drop_last()[j] == before.kept[k];
                assert(lines[j] == after.kept[k]);
            } else {
                assert(after.kept[k] == lines.last());
                assert(lines[lines.len() - 1] == after.kept[k]);
            }
        }
    }
}

/// Where no line opens a statement that `inc` leaves out, the filter keeps
/// every line and removes nothing.
pub proof fn lemma_scan_keeps_all(lines: Seq<Seq<char>>, inc: Inclusions)
    requires
        forall|k: int| 0 <= k < lines.len() ==> stays(#[trigger] lines[k], inc),
    ensures
        scan(lines, inc) == (Scan { kept: lines, removed: 0, skipping: false }),
    decreases lines.len(),
{
    if lines.len() == 0 {
        assert(scan(lines, inc).kept =~= lines);
    } else {
        let front = lines.drop_last();
        assert forall|k: int| 0 <= k < front.len() implies stays(#[trigger] front[k], inc) by {
            assert(front[k] == lines[k]);
        }
        lemma_scan_keeps_all(front, inc);
        assert(stays(lines[lines.len() - 1], inc));
        assert(front.push(lines.last()) =~= lines);
    }
}

/// Whether no line that the filter keeps of `content` ends in a carriage
/// return. A dump with plain or with CR-LF line ends has this property; one
/// with a carriage return before a CR-LF line end, or at its very end, may
/// not.
pub open spec fn keeps_no_bare_cr(content: Seq<char>, inc: Inclusions) -> bool {
    let kept = scan(split_lines(content), inc).kept;
    forall|k: int| 0 <= k < kept.len() ==> !ends_with_char(#[trigger] kept[k], '\r')
}

/// Filtering twice with the same choice is the same as filtering once: the
/// second pass returns the text that the first pass returned and removes
/// nothing. This holds of every dump of which the filter keeps no line that
/// ends in a carriage return.
pub proof fn lemma_filter_idempotent(content: Seq<char>, inc: Inclusions)
    requires
        keeps_no_bare_cr(content, inc),
    ensures
        filtered_text(filtered_text(content, inc), inc) == filtered_text(content, inc),
        removed_count(filtered_text(content, inc), inc) == 0,
{
    let lines = split_lines(content);
    let kept = scan(lines, inc).kept;
    lemma_kept_lines(lines, inc);
    lemma_split_gives_lines(content);
    assert forall|k: int| 0 <= k < kept.len() implies is_line(#[trigger] kept[k]) by {
        let j = choose|j: int| 0 <= j < lines.len() && lines[j] == kept[k];
        assert(is_line(lines[j]));
    }
    lemma_split_of_join(kept);
    lemma_scan_keeps_all(kept, inc);
}

/// With every kind included the filter removes nothing: it returns the
/// lines of the dump, each followed by a line feed. Where every line of the
/// dump already ends in a bare line feed, that is the dump itself.
pub proof fn lemma_filter_identity(content: Seq<char>, inc: Inclusions)
    requires
        inc.keeps_everything(),
    ensures
        filtered_text(content, inc) == join_lines(split_lines(content)),
        removed_count(content, inc) == 0,
        plain_line_ends(content) ==> filtered_text(content, inc) == content,
{
    let lines = split_lines(content);
    assert forall|k: int| 0 <= k < lines.len() implies stays(#[trigger] lines[k], inc) by {}
    lemma_scan_keeps_all(lines, inc);
    if plain_line_ends(content) {
        lemma_join_of_split(content);
    }
}

} // verus!
