//! The search for the client tools: what follows from the answers of the
//! system. Asking the system (running `which`, looking at directories,
//! trying a program) is the caller's business; the decisions are made here.

use vstd::prelude::*;
use crate::classify::Tool;
use crate::events::ToolOutput;
use crate::number::{parse_u32, parse_unsigned};
use crate::text::{
    from_chars, glue, lines_of, push_text, split_lines, string_views, to_chars, trim, trimmed,
    views,
};
use crate::types::opt_text;

verus! {

/// What the search of the program path (`which` or `where`) printed.
#[derive(Debug)]
pub struct PathLookup {
    /// Whether the search exited with status zero.
    pub exited_zero: bool,
    pub stdout: String,
}

/// What is known of one place where a tool may be.
#[derive(Debug)]
pub struct Probe {
    pub path: String,
    /// Whether a file is there.
    pub exists: bool,
    /// Whether the program there could be started with `--version`.
    pub runs: bool,
}

pub struct ProbeView {
    pub path: Seq<char>,
    pub exists: bool,
    pub runs: bool,
}

impl View for Probe {
    type V = ProbeView;

    open spec fn view(&self) -> ProbeView {
        ProbeView { path: self.path@, exists: self.exists, runs: self.runs }
    }
}

/// The views of a sequence of probes.
pub open spec fn probe_views(v: Seq<Probe>) -> Seq<ProbeView> {
    Seq::new(v.len(), |i: int| v[i]@)
}

/// The first line of `text`, trimmed; empty where `text` has no line.
pub open spec fn first_line(text: Seq<char>) -> Seq<char> {
    if split_lines(text).len() > 0 {
        trim(split_lines(text)[0])
    } else {
        Seq::empty()
    }
}

/// The path that a search of the program path names: the first line of its
/// output, where the search ran, exited with status zero and printed
/// a line that is not blank.
pub open spec fn lookup_candidate_of(lookup: Option<PathLookup>) -> Option<Seq<char>> {
    match lookup {
        Some(l) => if l.exited_zero && first_line(l.stdout@).len() > 0 {
            Some(first_line(l.stdout@))
        } else {
            None
        },
        None => None,
    }
}

/// The tool that the program path gives: the candidate of the search, where
/// the program there could be started.
pub open spec fn found_in_path(lookup: Option<PathLookup>, runs: bool) -> Option<Seq<char>> {
    if runs {
        lookup_candidate_of(lookup)
    } else {
        None
    }
}

/// Whether `i` is the place of the first probe that exists and runs.
pub open spec fn is_first_working(probes: Seq<ProbeView>, i: int) -> bool {
    &&& 0 <= i < probes.len()
    &&& probes[i].exists && probes[i].runs
    &&& forall|j: int| 0 <= j < i ==> !((#[trigger] probes[j]).exists && probes[j].runs)
}

/// The path of the first probe that exists and runs.
pub open spec fn first_working_of(probes: Seq<ProbeView>) -> Option<Seq<char>> {
    if exists|i: int| is_first_working(probes, i) {
        Some(probes[choose|i: int| is_first_working(probes, i)].path)
    } else {
        None
    }
}

/// Where a tool is: where the program path says, if the program there runs;
/// else at the first of the known places where a program is and runs.
pub open spec fn tool_location(lookup: Option<PathLookup>, runs: bool, probes: Seq<ProbeView>)
    -> Option<Seq<char>> {
    match found_in_path(lookup, runs) {
        Some(path) => Some(path),
        None => first_working_of(probes),
    }
}

/// The first line of `text`, trimmed.
pub fn first_line_of(text: &str) -> (r: String)
    ensures
        r@ == first_line(text@),
{
    let chars = to_chars(text);
    let lines = lines_of(&chars);
    if lines.len() > 0 {
        proof {
            assert(views(lines@)[0] == lines@[0]@);
        }
        let t = trimmed(&lines[0]);
        from_chars(&t)
    } else {
        String::new()
    }
}

/// The path that a search of the program path names, if any. The caller
/// tries that program and passes the outcome to `find_in_path`.
pub fn lookup_candidate(lookup: &Option<PathLookup>) -> (r: Option<String>)
    ensures
        opt_text(r) == lookup_candidate_of(*lookup),
{
    match lookup {
        Some(l) => {
            if !l.exited_zero {
                return None;
            }
            let path = first_line_of(l.stdout.as_str());
            if path.as_str().is_empty() {
                None
            } else {
                Some(path)
            }
        },
        None => None,
    }
}

/// The tool that the program path gives. `lookup` is what the search
/// printed, `None` where the search could not be started; `runs` says
/// whether the program that it names could be started.
pub fn find_in_path(lookup: &Option<PathLookup>, runs: bool) -> (r: Option<String>)
    ensures
        opt_text(r) == found_in_path(*lookup, runs),
{
    if runs {
        lookup_candidate(lookup)
    } else {
        None
    }
}

/// The path of the first probe that exists and runs.
pub fn first_working(probes: &Vec<Probe>) -> (r: Option<String>)
    ensures
        opt_text(r) == first_working_of(probe_views(probes@)),
        match r {
            Some(path) => exists|i: int|
                is_first_working(probe_views(probes@), i) && path@ == (#[trigger] probe_views(
                    probes@,
                )[i]).path,
            None => forall|i: int|
                0 <= i < probes@.len() ==> !((#[trigger] probe_views(probes@)[i]).exists
                    && probe_views(probes@)[i].runs),
        },
{
    let ghost all = probe_views(probes@);
    let mut i: usize = 0;
    while i < probes.len()
        invariant
            i <= probes.len(),
            all == probe_views(probes@),
            forall|j: int| 0 <= j < i ==> !((#[trigger] all[j]).exists && all[j].runs),
        decreases probes.len() - i,
    {
        if probes[i].exists && probes[i].runs {
            let path = probes[i].path.clone();
            proof {
                assert(is_first_working(all, i as int));
                let k = choose|k: int| is_first_working(all, k);
                if k < i {
                    assert(!(all[k].exists && all[k].runs));
                } else if k > i {
                    assert(!(all[i as int].exists && all[i as int].runs));
                }
            }
            return Some(path);
        }
        i += 1;
    }
    proof {
        if exists|k: int| is_first_working(all, k) {
            let k = choose|k: int| is_first_working(all, k);
            assert(!(all[k].exists && all[k].runs));
        }
    }
    None
}

/// Where a tool is; see `tool_location`.
pub fn find_tool(lookup: &Option<PathLookup>, runs: bool, probes: &Vec<Probe>) -> (r: Option<
    String,
>)
    ensures
        opt_text(r) == tool_location(*lookup, runs, probe_views(probes@)),
{
    match find_in_path(lookup, runs) {
        Some(path) => Some(path),
        None => first_working(probes),
    }
}

/// Where the SQL shell is; see `tool_location`.
pub fn find_psql(lookup: &Option<PathLookup>, runs: bool, probes: &Vec<Probe>) -> (r: Option<
    String,
>)
    ensures
        opt_text(r) == tool_location(*lookup, runs, probe_views(probes@)),
{
    find_tool(lookup, runs, probes)
}

/// Where the dump tool is; see `tool_location`.
pub fn find_pg_dump(lookup: &Option<PathLookup>, runs: bool, probes: &Vec<Probe>) -> (r: Option<
    String,
>)
    ensures
        opt_text(r) == tool_location(*lookup, runs, probe_views(probes@)),
{
    find_tool(lookup, runs, probes)
}

/// Where the restore tool is; see `tool_location`.
pub fn find_pg_restore(lookup: &Option<PathLookup>, runs: bool, probes: &Vec<Probe>) -> (r:
    Option<String>)
    ensures
        opt_text(r) == tool_location(*lookup, runs, probe_views(probes@)),
{
    find_tool(lookup, runs, probes)
}

/// The places where a tool usually is on Linux and macOS.
pub open spec fn unix_places(tool: Tool) -> Seq<Seq<char>> {
    seq![
        "/usr/bin/"@ + tool.name_text(),
        "/usr/local/bin/"@ + tool.name_text(),
        "/opt/homebrew/bin/"@ + tool.name_text(),
        "/usr/local/pgsql/bin/"@ + tool.name_text(),
    ]
}

/// The places where a tool usually is on Linux and macOS.
pub fn unix_candidates(tool: Tool) -> (r: Vec<String>)
    ensures
        string_views(r@) == unix_places(tool),
{
    let mut r: Vec<String> = Vec::new();
    proof {
        assert(string_views(r@) =~= Seq::<Seq<char>>::empty());
    }
    push_text(&mut r, glue("/usr/bin/", tool.name()));
    push_text(&mut r, glue("/usr/local/bin/", tool.name()));
    push_text(&mut r, glue("/opt/homebrew/bin/", tool.name()));
    push_text(&mut r, glue("/usr/local/pgsql/bin/", tool.name()));
    proof {
        assert(string_views(r@) =~= unix_places(tool));
    }
    r
}

/// The file name of a tool in an installation directory on Windows.
pub fn windows_executable(tool: Tool) -> (r: String)
    ensures
        r@ == tool.name_text() + ".exe"@,
{
    glue(tool.name(), ".exe")
}

/// The version of the client that the SQL shell reports: what it printed
/// for `--version`, trimmed, where it could be started and exited with
/// status zero.
pub fn get_pg_client_version(output: &Option<ToolOutput>) -> (r: Option<String>)
    ensures
        opt_text(r) == match *output {
            Some(o) => if o.exited_zero {
                Some(trim(o@.stdout))
            } else {
                None
            },
            None => None,
        },
{
    match output {
        Some(o) => if o.exited_zero {
            let chars = to_chars(o.stdout.as_str());
            let t = trimmed(&chars);
            Some(from_chars(&t))
        } else {
            None
        },
        None => None,
    }
}

/// Whether the tools that every operation needs are there: the SQL shell
/// and the dump tool.
pub fn check_tools_available(psql: &Option<String>, pg_dump: &Option<String>) -> (r: bool)
    ensures
        r == (psql is Some && pg_dump is Some),
{
    psql.is_some() && pg_dump.is_some()
}

/// One entry of a directory that may hold installations.
#[derive(Debug)]
pub struct InstallEntry {
    /// The name of the entry.
    pub name: String,
    /// The path of its `bin` directory.
    pub bin_path: String,
    pub is_dir: bool,
    /// Whether the `bin` directory is there.
    pub has_bin: bool,
}

pub struct InstallEntryView {
    pub name: Seq<char>,
    pub bin_path: Seq<char>,
    pub is_dir: bool,
    pub has_bin: bool,
}

impl View for InstallEntry {
    type V = InstallEntryView;

    open spec fn view(&self) -> InstallEntryView {
        InstallEntryView {
            name: self.name@,
            bin_path: self.bin_path@,
            is_dir: self.is_dir,
            has_bin: self.has_bin,
        }
    }
}

/// The views of a sequence of directory entries.
pub open spec fn entry_views(v: Seq<InstallEntry>) -> Seq<InstallEntryView> {
    Seq::new(v.len(), |i: int| v[i]@)
}

/// The `bin` directory of one installation, with its version.
#[derive(Debug)]
pub struct InstallDir {
    pub version: u32,
    pub bin_path: String,
}

pub struct InstallDirView {
    pub version: u32,
    pub bin_path: Seq<char>,
}

impl View for InstallDir {
    type V = InstallDirView;

    open spec fn view(&self) -> InstallDirView {
        InstallDirView { version: self.version, bin_path: self.bin_path@ }
    }
}

/// The views of a sequence of installation directories.
pub open spec fn dir_views(v: Seq<InstallDir>) -> Seq<InstallDirView> {
    Seq::new(v.len(), |i: int| v[i]@)
}

/// The installation that a directory entry stands for: a directory whose
/// name is a version number and which holds a `bin` directory.
pub open spec fn install_of(entry: InstallEntryView) -> Option<InstallDirView> {
    match parse_unsigned(entry.name, u32::MAX as int) {
        Some(v) => if entry.is_dir && entry.has_bin {
            Some(InstallDirView { version: v as u32, bin_path: entry.bin_path })
        } else {
            None
        },
        None => None,
    }
}

/// Where `version` goes in a list that is ordered from the highest version
/// down: behind every entry whose version is not lower.
pub open spec fn insertion_point(dirs: Seq<InstallDirView>, version: u32) -> int
    decreases dirs.len(),
{
    if dirs.len() == 0 || dirs[0].version < version {
        0
    } else {
        1 + insertion_point(dirs.drop_first(), version)
    }
}

/// The installations among `entries`, ordered from the highest version
/// down; installations of one version stay in the order of their entries.
pub open spec fn installs_of(entries: Seq<InstallEntryView>) -> Seq<InstallDirView>
    decreases entries.len(),
{
    if entries.len() == 0 {
        Seq::empty()
    } else {
        let before = installs_of(entries.drop_last());
        match install_of(entries.last()) {
            Some(dir) => before.insert(insertion_point(before, dir.version), dir),
            None => before,
        }
    }
}

/// Whether `dirs` is ordered from the highest version down.
pub open spec fn is_descending(dirs: Seq<InstallDirView>) -> bool {
    forall|i: int, j: int|
        0 <= i <= j < dirs.len() ==> (#[trigger] dirs[i]).version >= (#[trigger] dirs[j]).version
}

/// The insertion point lies in the list, every entry before it has
/// a version that is not lower, and the entry at it, if any, a lower one.
pub proof fn lemma_insertion_point(dirs: Seq<InstallDirView>, version: u32)
    ensures
        0 <= insertion_point(dirs, version) <= dirs.len(),
        forall|k: int|
            0 <= k < insertion_point(dirs, version) ==> (#[trigger] dirs[k]).version >= version,
        insertion_point(dirs, version) < dirs.len() ==> dirs[insertion_point(
            dirs,
            version,
        )].version < version,
    decreases dirs.len(),
{
    if dirs.len() == 0 || dirs[0].version < version {
    } else {
        let t = dirs.drop_first();
        lemma_insertion_point(t, version);
        assert forall|k: int| 0 <= k < insertion_point(dirs, version) implies (
        #[trigger] dirs[k]).version >= version by {
            if k > 0 {
                assert(dirs[k] == t[k - 1]);
            }
        }
    }
}

/// The list of installations is ordered from the highest version down, and
/// it holds no more installations than there are entries.
pub proof fn lemma_installs_descend(entries: Seq<InstallEntryView>)
    ensures
        is_descending(installs_of(entries)),
        installs_of(entries).len() <= entries.len(),
    decreases entries.len(),
{
    if entries.len() > 0 {
        let before = installs_of(entries.drop_last());
        lemma_installs_descend(entries.drop_last());
        match install_of(entries.last()) {
            Some(dir) => {
                let k = insertion_point(before, dir.version);
                lemma_insertion_point(before, dir.version);
                let after = before.insert(k, dir);
                assert forall|i: int, j: int| 0 <= i <= j < after.len() implies (
                #[trigger] after[i]).version >= (#[trigger] after[j]).version by {
                    if i < k && j > k {
                        assert(after[i] == before[i]);
                        assert(after[j] == before[j - 1]);
                        assert(before[i].version >= before[j - 1].version);
                    } else if i < k && j == k {
                        assert(after[i] == before[i]);
                    } else if i < k && j < k {
                        assert(after[i] == before[i]);
                        assert(after[j] == before[j]);
                    } else if i == k && j > k {
                        assert(after[j] == before[j - 1]);
                        assert(before[k].version >= before[j - 1].version);
                    } else if i > k {
                        assert(after[i] == before[i - 1]);
                        assert(after[j] == before[j - 1]);
                    }
                }
            },
            None => {},
        }
    }
}

/// The installations among the entries of the installation directories,
/// ordered from the highest version down.
pub fn find_pg_install_dirs(entries: &Vec<InstallEntry>) -> (r: Vec<InstallDir>)
    ensures
        dir_views(r@) == installs_of(entry_views(entries@)),
        is_descending(dir_views(r@)),
{
    let ghost all = entry_views(entries@);
    let mut r: Vec<InstallDir> = Vec::new();
    let mut i: usize = 0;
    proof {
        assert(all.take(0) =~= Seq::<InstallEntryView>::empty());
        assert(dir_views(r@) =~= Seq::<InstallDirView>::empty());
    }
    while i < entries.len()
        invariant
            i <= entries.len(),
            all == entry_views(entries@),
            dir_views(r@) == installs_of(all.take(i as int)),
        decreases entries.len() - i,
    {
        let entry = &entries[i];
        proof {
            let next = all.take(i + 1);
            assert(next.drop_last() =~= all.take(i as int));
            assert(next.last() == entries@[i as int]@);
        }
        let name = to_chars(entry.name.as_str());
        match parse_u32(&name) {
            Some(version) => {
                if entry.is_dir && entry.has_bin {
                    let ghost before = dir_views(r@);
                    let ghost old_r = r@;
                    let mut k: usize = 0;
                    while k < r.len() && r[k].version >= version
                        invariant
                            k <= r.len(),
                            r@ == old_r,
                            before == dir_views(r@),
                            forall|j: int| 0 <= j < k ==> (#[trigger] before[j]).version >= version,
                        decreases r.len() - k,
                    {
                        k += 1;
                    }
                    proof {
                        lemma_insertion_point(before, version);
                        let p = insertion_point(before, version);
                        if p < k {
                            assert(before[p].version >= version);
                        } else if p > k {
                            assert(before[k as int].version >= version);
                        }
                    }
                    let dir = InstallDir { version, bin_path: entry.bin_path.clone() };
                    r.insert(k, dir);
                    proof {
                        assert(dir_views(r@) =~= before.insert(k as int, dir@));
                    }
                }
            },
            None => {},
        }
        i += 1;
    }
    proof {
        assert(all.take(entries@.len() as int) =~= all);
        lemma_installs_descend(all);
    }
    r
}

} // verus!
