//! What passes between a run and the code that does its outside work: the
//! effects and requests that a run hands out, and the events that come back.

use vstd::prelude::*;
use crate::command::{Invocation, InvocationView};
use crate::types::{CloneProgress, CloneProgressView};

verus! {

/// Something for the caller to do that needs no answer.
#[derive(Debug)]
pub enum Effect {
    /// Report how far the run has come.
    Progress(CloneProgress),
    /// Show one line of the run's log.
    Log(String),
    /// Delete the temporary file at this path; a failure to do so is ignored.
    DeleteFile(String),
}

pub enum EffectView {
    Progress(CloneProgressView),
    Log(Seq<char>),
    DeleteFile(Seq<char>),
}

impl View for Effect {
    type V = EffectView;

    open spec fn view(&self) -> EffectView {
        match self {
            Effect::Progress(p) => EffectView::Progress(p@),
            Effect::Log(line) => EffectView::Log(line@),
            Effect::DeleteFile(path) => EffectView::DeleteFile(path@),
        }
    }
}

/// The views of a sequence of effects.
pub open spec fn effect_views(v: Seq<Effect>) -> Seq<EffectView> {
    Seq::new(v.len(), |i: int| v[i]@)
}

/// The log lines among `effects`, in their order.
pub open spec fn log_lines(effects: Seq<EffectView>) -> Seq<Seq<char>>
    decreases effects.len(),
{
    if effects.len() == 0 {
        Seq::empty()
    } else {
        match effects.last() {
            EffectView::Log(line) => log_lines(effects.drop_last()).push(line),
            _ => log_lines(effects.drop_last()),
        }
    }
}

/// The outside work that a run waits for. Its outcome comes back as the
/// next event.
#[derive(Debug)]
pub enum Request {
    /// Create the directory at this path, with its parents.
    CreateDir(String),
    /// Run a client tool and wait for it to end.
    Run(Invocation),
    /// Find out the size of the file at this path.
    FileSize(String),
    /// Read the file at this path.
    ReadFile(String),
    /// Write `content` to the file at `path`.
    WriteFile { path: String, content: String },
    /// Nothing: the run is over.
    Finish,
}

pub enum RequestView {
    CreateDir(Seq<char>),
    Run(InvocationView),
    FileSize(Seq<char>),
    ReadFile(Seq<char>),
    WriteFile { path: Seq<char>, content: Seq<char> },
    Finish,
}

impl View for Request {
    type V = RequestView;

    open spec fn view(&self) -> RequestView {
        match self {
            Request::CreateDir(path) => RequestView::CreateDir(path@),
            Request::Run(invocation) => RequestView::Run(invocation@),
            Request::FileSize(path) => RequestView::FileSize(path@),
            Request::ReadFile(path) => RequestView::ReadFile(path@),
            Request::WriteFile { path, content } => RequestView::WriteFile {
                path: path@,
                content: content@,
            },
            Request::Finish => RequestView::Finish,
        }
    }
}

/// What one step of a run hands to the caller: effects to carry out in
/// order, then one request to answer.
#[derive(Debug)]
pub struct Step {
    pub effects: Vec<Effect>,
    pub request: Request,
}

pub struct StepView {
    pub effects: Seq<EffectView>,
    pub request: RequestView,
}

impl View for Step {
    type V = StepView;

    open spec fn view(&self) -> StepView {
        StepView { effects: effect_views(self.effects@), request: self.request@ }
    }
}

/// How a client tool ended.
#[derive(Debug)]
pub struct ToolOutput {
    /// Whether the exit status was zero.
    pub exited_zero: bool,
    pub stdout: String,
    pub stderr: String,
    /// How long the tool ran, in milliseconds.
    pub elapsed_ms: u64,
}

pub struct ToolOutputView {
    pub exited_zero: bool,
    pub stdout: Seq<char>,
    pub stderr: Seq<char>,
    pub elapsed_ms: u64,
}

impl View for ToolOutput {
    type V = ToolOutputView;

    open spec fn view(&self) -> ToolOutputView {
        ToolOutputView {
            exited_zero: self.exited_zero,
            stdout: self.stdout@,
            stderr: self.stderr@,
            elapsed_ms: self.elapsed_ms,
        }
    }
}

/// What came of a request.
#[derive(Debug)]
pub enum Event {
    /// The run may begin; this answers no request.
    Begin,
    /// The directory is there.
    DirCreated,
    /// The tool ran and ended.
    Exited(ToolOutput),
    /// The size of the file in bytes, if it could be found out.
    Size(Option<u64>),
    /// What the file holds.
    Content(String),
    /// The file was written.
    Written,
    /// The request could not be carried out: the tool did not start, or the
    /// file system refused. With the reason that the system gave.
    Failed(String),
}

pub enum EventView {
    Begin,
    DirCreated,
    Exited(ToolOutputView),
    Size(Option<u64>),
    Content(Seq<char>),
    Written,
    Failed(Seq<char>),
}

impl View for Event {
    type V = EventView;

    open spec fn view(&self) -> EventView {
        match self {
            Event::Begin => EventView::Begin,
            Event::DirCreated => EventView::DirCreated,
            Event::Exited(output) => EventView::Exited(output@),
            Event::Size(size) => EventView::Size(*size),
            Event::Content(text) => EventView::Content(text@),
            Event::Written => EventView::Written,
            Event::Failed(reason) => EventView::Failed(reason@),
        }
    }
}

/// Appends `effect` to `effects`.
pub fn push_effect(effects: &mut Vec<Effect>, effect: Effect)
    ensures
        effect_views(final(effects)@) == effect_views(old(effects)@).push(effect@),
{
    let ghost before = effects@;
    effects.push(effect);
    proof {
        assert(effect_views(effects@) =~= effect_views(before).push(effect@));
    }
}

/// Appends the log line `line` to `effects`.
pub fn say(effects: &mut Vec<Effect>, line: String)
    ensures
        effect_views(final(effects)@) == effect_views(old(effects)@).push(EffectView::Log(line@)),
{
    push_effect(effects, Effect::Log(line));
}

/// Appends the deletion of the file at `path` to `effects`.
pub fn discard(effects: &mut Vec<Effect>, path: &str)
    ensures
        effect_views(final(effects)@) == effect_views(old(effects)@).push(
            EffectView::DeleteFile(path@),
        ),
{
    push_effect(effects, Effect::DeleteFile(path.to_owned()));
}

/// The log lines of `effects` come after those of a prefix of `effects`.
pub proof fn lemma_log_lines_push(effects: Seq<EffectView>, effect: EffectView)
    ensures
        log_lines(effects.push(effect)) == match effect {
            EffectView::Log(line) => log_lines(effects).push(line),
            _ => log_lines(effects),
        },
{
    assert(effects.push(effect).drop_last() =~= effects);
}

} // verus!
