//! The local models panel: the tasks the model tool offers, its progress
//! lines, and what installing or discarding a proposal leaves behind.
use vstd::prelude::*;
use crate::model::{EngineOp, EditorState, InstalledModel, StatusNote, Workspace};
use crate::decimal::{dec, decimal, parse_count, parse_usize};
use crate::session::JournalEntry;
use crate::text::{chars_of, find, find_at, joined, slice, starts_with, has_prefix, string_of, trim, trimmed};

verus! {

/// One input of a task, by name and kind.
#[derive(Debug)]
pub struct TaskInput {
    /// The flag name.
    pub name: String,
    /// The kind, as the tool names it: source, model, glyph, glyphs,
    /// number, flag, text.
    pub kind: String,
}

/// One task as the model tool describes it.
#[derive(Debug)]
pub struct TaskRow {
    /// The name the tool runs it by.
    pub name: String,
    /// One line for the button.
    pub title: String,
    /// A few lines for a tooltip.
    pub help: String,
    /// Whether the installed tool runs it.
    pub implemented: bool,
    pub inputs: Vec<TaskInput>,
}

/// Whether two character strings are the same.
pub fn same_chars(a: &Vec<char>, b: &Vec<char>) -> (r: bool)
    ensures
        r == (a@ == b@),
{
    if a.len() != b.len() {
        return false;
    }
    let mut i: usize = 0;
    while i < a.len()
        invariant
            a@.len() == b@.len(),
            i <= a@.len(),
            forall|j: int| 0 <= j < i ==> a@[j] == b@[j],
        decreases a@.len() - i,
    {
        if a[i] != b[i] {
            return false;
        }
        i += 1;
    }
    assert(a@ =~= b@);
    true
}

/// Whether string `s` reads `word`.
pub fn text_is(s: &String, word: &str) -> (r: bool)
    ensures
        r == (s@ == word@),
{
    let a = chars_of(s.as_str());
    let b = chars_of(word);
    same_chars(&a, &b)
}

impl TaskRow {
    /// Whether some input is of kind `kind`.
    pub open spec fn has_input_kind(&self, kind: Seq<char>) -> bool {
        exists|i: int| 0 <= i < self.inputs@.len() && #[trigger] self.inputs@[i].kind@ == kind
    }

    /// Whether the task takes a set of glyphs, so "every drawn glyph" is
    /// a call it understands.
    pub fn takes_glyphs(&self) -> (r: bool)
        ensures
            r == self.has_input_kind("glyphs"@),
    {
        let mut i: usize = 0;
        while i < self.inputs.len()
            invariant
                i <= self.inputs@.len(),
                forall|j: int| 0 <= j < i ==> self.inputs@[j].kind@ != "glyphs"@,
            decreases self.inputs@.len() - i,
        {
            if text_is(&self.inputs[i].kind, "glyphs") {
                return true;
            }
            i += 1;
        }
        false
    }

    /// Whether the task takes one glyph, so "this glyph" is a call: an
    /// input of kind glyph or glyphs.
    pub fn takes_glyph(&self) -> (r: bool)
        ensures
            r == (self.has_input_kind("glyph"@) || self.has_input_kind("glyphs"@)),
    {
        let mut i: usize = 0;
        while i < self.inputs.len()
            invariant
                i <= self.inputs@.len(),
                forall|j: int| 0 <= j < i ==> self.inputs@[j].kind@ != "glyph"@ && self.inputs@[j].kind@ != "glyphs"@,
            decreases self.inputs@.len() - i,
        {
            if text_is(&self.inputs[i].kind, "glyph") || text_is(&self.inputs[i].kind, "glyphs") {
                return true;
            }
            i += 1;
        }
        false
    }
}

/// A progress line as the model tool prints it,
/// `progress <done>/<total> <glyph>`: the two counts and the glyph
/// (trimmed). `None` for any other line.
pub open spec fn progress_of(line: Seq<char>) -> Option<(nat, nat, Seq<char>)> {
    let tag = "progress "@;
    if !starts_with(line, tag) {
        None
    } else {
        let rest = line.subrange(tag.len() as int, line.len() as int);
        match find(rest, " "@) {
            None => None,
            Some(sp) => {
                let count = rest.subrange(0, sp);
                let glyph = rest.subrange(sp + 1, rest.len() as int);
                match find(count, "/"@) {
                    None => None,
                    Some(sl) => {
                        let done = parse_count(count.subrange(0, sl));
                        let total = parse_count(count.subrange(sl + 1, count.len() as int));
                        if done is Some && total is Some && done->0 <= usize::MAX && total->0 <= usize::MAX {
                            Some((done->0, total->0, trim(glyph)))
                        } else {
                            None
                        }
                    },
                }
            },
        }
    }
}

/// Read a progress line. `None` for any other line.
pub fn parse_progress(line: &str) -> (r: Option<(usize, usize, String)>)
    ensures
        r matches Some(t) ==> progress_of(line@) == Some((t.0 as nat, t.1 as nat, t.2@)),
        r is None ==> progress_of(line@) is None,
{
    let s = chars_of(line);
    let tag = chars_of("progress ");
    let space = chars_of(" ");
    let slash = chars_of("/");
    proof {
        reveal_strlit(" ");
        reveal_strlit("/");
    }
    if !has_prefix(&s, &tag) {
        return None;
    }
    let rest = slice(&s, tag.len(), s.len());
    proof { crate::chat::lemma_find_from_zero(rest@, space@); }
    let sp = find_at(&rest, &space, 0)?;
    let count = slice(&rest, 0, sp);
    let glyph = slice(&rest, sp + 1, rest.len());
    proof { crate::chat::lemma_find_from_zero(count@, slash@); }
    let sl = find_at(&count, &slash, 0)?;
    let done_text = slice(&count, 0, sl);
    let total_text = slice(&count, sl + 1, count.len());
    let done = parse_usize(&done_text)?;
    let total = parse_usize(&total_text)?;
    let g = trimmed(&glyph);
    Some((done, total, string_of(&g)))
}

/// What installing a proposal did: the task, how many glyphs went in,
/// how many were skipped.
#[derive(Debug)]
pub struct InstallReport {
    pub task: String,
    pub installed: usize,
    pub skipped: usize,
}

/// The journal detail of an install: `<task>: <n> installed, <m> skipped`.
pub open spec fn install_detail(task: Seq<char>, installed: nat, skipped: nat) -> Seq<char> {
    task + ": "@ + dec(installed) + " installed, "@ + dec(skipped) + " skipped"@
}

/// What the model tool reported of a run on one glyph: points moved,
/// points in all, and the change of advance.
#[derive(Debug)]
pub struct TaskReport {
    pub moved: u64,
    pub points: u64,
    pub advance: i64,
}

/// What adopting a proposal from disk found: how many glyphs were
/// proposed, and how many of them keep their structure.
#[derive(Debug)]
pub struct ProposalSummary {
    pub glyphs: usize,
    pub compatible: usize,
}

/// `n` written with its sign, `+` for zero and up.
pub open spec fn signed(n: int) -> Seq<char> {
    if n >= 0 { "+"@ + dec(n as nat) } else { "-"@ + dec((-n) as nat) }
}

/// The journal detail of a run on one glyph:
/// `<moved>/<points> points moved, advance <±advance>`.
pub open spec fn run_detail(moved: nat, points: nat, advance: int) -> Seq<char> {
    dec(moved) + "/"@ + dec(points) + " points moved, advance "@ + signed(advance)
}

fn signed_decimal(n: i64) -> (r: Vec<char>)
    ensures
        r@ == signed(n as int),
{
    if n >= 0 {
        joined(&chars_of("+"), &decimal(n as u128))
    } else {
        let m: i128 = -(n as i128);
        joined(&chars_of("-"), &decimal(m as u128))
    }
}

/// A run of the model tool: the tool, the task, the model, the font's
/// source, the glyph when it runs on one, the bits of the strength, and
/// the other master's source when there is one.
#[derive(Debug)]
pub struct TaskRun {
    pub binary: String,
    pub task: String,
    pub model: String,
    pub source: String,
    pub glyph: Option<String>,
    pub strength_bits: u64,
    pub reference: Option<String>,
}

/// The panel's busy line while a task starts: `Running <task> on
/// <glyph>…`, or `on every glyph…`.
pub open spec fn running_line(task: Seq<char>, glyph: Option<Seq<char>>) -> Seq<char> {
    match glyph {
        Some(g) => "Running "@ + task + " on "@ + g + "…"@,
        None => "Running "@ + task + " on every glyph…"@,
    }
}

/// The panel's busy line as a run reports progress:
/// `<task>: <done>/<total> (<glyph>)`.
pub open spec fn task_progress_line(task: Seq<char>, done: nat, total: nat, glyph: Seq<char>) -> Seq<char> {
    task + ": "@ + dec(done) + "/"@ + dec(total) + " ("@ + glyph + ")"@
}

impl Workspace {
    /// Look at the disk again: the models found, and where the model
    /// tool is.
    pub fn rescan_models(&mut self, installed: Vec<InstalledModel>, binary: Option<String>)
        ensures
            *final(self) == (Workspace {
                models: crate::model::ModelsState { installed, binary, ..old(self).models },
                ..*old(self)
            }),
    {
        self.models.installed = installed;
        self.models.binary = binary;
    }

    /// Stop the running task. The tool writes its proposal only at the
    /// end, so a killed run leaves nothing behind.
    pub fn cancel_task(&mut self) -> (ops: Vec<EngineOp>)
        ensures
            !old(self).models.job ==> *final(self) == *old(self) && ops@.len() == 0,
            old(self).models.job ==> {
                &&& ops@ == seq![EngineOp::KillTaskJob]
                &&& *final(self) == (Workspace {
                    models: crate::model::ModelsState { job: false, ..old(self).models },
                    status_note: Some(StatusNote::Cancelled),
                    ..*old(self)
                })
            },
    {
        let mut ops = Vec::new();
        if !self.models.job {
            return ops;
        }
        self.models.job = false;
        ops.push(EngineOp::KillTaskJob);
        self.status_note = Some(StatusNote::Cancelled);
        ops
    }

    /// Install a waiting proposal, one undo step per glyph: the request.
    /// With no font open there is nothing to install, and the proposal
    /// list is read again.
    pub fn install_proposal(&self, task: String, only: Option<Vec<String>>) -> (ops: Vec<EngineOp>)
        ensures
            self.has_font() ==> ops@ == seq![EngineOp::InstallProposal(task, only)],
            !self.has_font() ==> ops@ == seq![EngineOp::RefreshProposals],
    {
        let mut ops = Vec::new();
        if self.font_open() {
            ops.push(EngineOp::InstallProposal(task, only));
        } else {
            ops.push(EngineOp::RefreshProposals);
        }
        ops
    }

    /// The install, once the engine answers: the journal line and the
    /// status note, the selected glyph's row rebuilt, the proposal list
    /// read again. A refusal is shown as it came.
    pub fn finish_install_proposal(&mut self, outcome: Result<InstallReport, String>)
        -> (r: (Vec<EngineOp>, Option<JournalEntry>))
        ensures
            match outcome {
                Ok(done) => {
                    &&& r.1 matches Some(e) && old(self).journal_says(e, "install proposal"@, None,
                        Some(install_detail(done.task@, done.installed as nat, done.skipped as nat)))
                    &&& *final(self) == (Workspace {
                        status_note: Some(StatusNote::InstalledProposal(done.task, done.installed, done.skipped)),
                        ..*old(self)
                    })
                    &&& r.0@ == if old(self).selected is Some && old(self).has_font() {
                        seq![EngineOp::RebuildEntry(old(self).selected->0), EngineOp::RefreshProposals]
                    } else {
                        seq![EngineOp::RefreshProposals]
                    }
                },
                Err(e) => {
                    &&& r.1 is None
                    &&& *final(self) == (Workspace { status_note: Some(StatusNote::Text(e)), ..*old(self) })
                    &&& r.0@ == seq![EngineOp::RefreshProposals]
                },
            },
    {
        let mut ops = Vec::new();
        match outcome {
            Ok(done) => {
                let t = chars_of(done.task.as_str());
                let a = joined(&t, &chars_of(": "));
                let b = joined(&a, &decimal(done.installed as u128));
                let c = joined(&b, &chars_of(" installed, "));
                let d = joined(&c, &decimal(done.skipped as u128));
                let e = joined(&d, &chars_of(" skipped"));
                let entry = self.journal("install proposal", None, Some(string_of(&e)));
                self.status_note = Some(StatusNote::InstalledProposal(done.task, done.installed, done.skipped));
                if let Some(index) = self.selected {
                    if self.font_open() {
                        ops.push(EngineOp::RebuildEntry(index));
                    }
                }
                ops.push(EngineOp::RefreshProposals);
                (ops, Some(entry))
            },
            Err(e) => {
                self.status_note = Some(StatusNote::Text(e));
                ops.push(EngineOp::RefreshProposals);
                (ops, None)
            },
        }
    }

    /// The model tool came back and its proposal was adopted from disk,
    /// or not. A run on one glyph installs at once and clears the point
    /// selection, with a journal line and a note of what moved; a run on
    /// many leaves the proposal in the panel to install or discard. A
    /// failed adoption is shown as it came.
    pub fn task_finished(&mut self, task: String, glyph: Option<usize>, adopted: Result<ProposalSummary, String>,
        report: TaskReport) -> (r: (Vec<EngineOp>, Option<JournalEntry>))
        requires
            glyph is Some && old(self).has_font() ==> glyph->0 < old(self).project->0.active_master().glyphs@.len(),
        ensures
            match adopted {
                Err(e) => {
                    &&& *final(self) == (Workspace { status_note: Some(StatusNote::ModelFailed(e)), ..*old(self) })
                    &&& r.0@.len() == 0
                    &&& r.1 is None
                },
                Ok(summary) => match glyph {
                    Some(i) => {
                        let name = old(self).name_at(i as int);
                        &&& !old(self).has_font() ==> r.0@ == seq![EngineOp::RefreshProposals]
                        &&& old(self).has_font() ==> {
                            &&& r.0@.len() == 1
                            &&& r.0@[0] matches EngineOp::InstallProposal(t, only)
                            &&& t == task
                            &&& match name {
                                Some(n) => only matches Some(v) && v@.len() == 1 && v@[0]@ == n,
                                None => only is None,
                            }
                        }
                        &&& r.1 matches Some(e) && old(self).journal_says(e, "run model task"@, Some(i),
                            Some(run_detail(report.moved as nat, report.points as nat, report.advance as int)))
                        &&& final(self).status_note matches Some(StatusNote::ModelRan(t, n, m, p, a))
                        &&& t == task && m == report.moved && p == report.points && a == report.advance
                        &&& n@ == match name { Some(s) => s, None => Seq::empty() }
                        &&& final(self).editor.selected@.len() == 0
                        &&& *final(self) == (Workspace {
                            editor: EditorState { selected: final(self).editor.selected, ..old(self).editor },
                            status_note: final(self).status_note,
                            ..*old(self)
                        })
                    },
                    None => {
                        &&& *final(self) == (Workspace {
                            status_note: Some(StatusNote::ModelProposed(summary.glyphs, summary.compatible)),
                            ..*old(self)
                        })
                        &&& r.0@ == seq![EngineOp::RefreshProposals]
                        &&& r.1 is None
                    },
                },
            },
    {
        let summary = match adopted {
            Ok(s) => s,
            Err(e) => {
                self.status_note = Some(StatusNote::ModelFailed(e));
                return (Vec::new(), None);
            },
        };
        match glyph {
            Some(index) => {
                let name = self.glyph_name_at(index);
                let only = match &name {
                    Some(n) => {
                        let mut v = Vec::new();
                        v.push(n.clone());
                        Some(v)
                    },
                    None => None,
                };
                let ops = self.install_proposal(task.clone(), only);
                self.editor.selected.clear();
                let a = decimal(report.moved as u128);
                let b = joined(&a, &chars_of("/"));
                let c = joined(&b, &decimal(report.points as u128));
                let d = joined(&c, &chars_of(" points moved, advance "));
                let e = joined(&d, &signed_decimal(report.advance));
                let entry = self.journal("run model task", Some(index), Some(string_of(&e)));
                let shown = match name {
                    Some(n) => n,
                    None => String::new(),
                };
                self.status_note = Some(StatusNote::ModelRan(task, shown, report.moved, report.points, report.advance));
                (ops, Some(entry))
            },
            None => {
                self.status_note = Some(StatusNote::ModelProposed(summary.glyphs, summary.compatible));
                let mut ops = Vec::new();
                ops.push(EngineOp::RefreshProposals);
                (ops, None)
            },
        }
    }

    /// Before a model run: a model must be chosen, the tool found, and no
    /// run going, else the status bar says which. When it may start, says
    /// whether the active master has unsaved edits, which the tool, since
    /// it reads the disk, needs saved first.
    pub fn task_preflight(&mut self) -> (r: Option<bool>)
        ensures
            old(self).models.dir is None ==> r is None
                && *final(self) == (Workspace { status_note: Some(StatusNote::ChooseModelFirst), ..*old(self) }),
            (old(self).models.dir is Some && old(self).models.binary is None) ==> r is None
                && *final(self) == (Workspace { status_note: Some(StatusNote::FontMlMissing), ..*old(self) }),
            (old(self).models.dir is Some && old(self).models.binary is Some && old(self).models.busy is Some)
                ==> r is None
                && *final(self) == (Workspace { status_note: Some(StatusNote::ModelRunning), ..*old(self) }),
            (old(self).models.dir is Some && old(self).models.binary is Some && old(self).models.busy is None)
                ==> r == Some(old(self).has_font() && old(self).project->0.active_master().dirty)
                && *final(self) == *old(self),
    {
        if self.models.dir.is_none() {
            self.status_note = Some(StatusNote::ChooseModelFirst);
            return None;
        }
        if self.models.binary.is_none() {
            self.status_note = Some(StatusNote::FontMlMissing);
            return None;
        }
        if self.models.busy.is_some() {
            self.status_note = Some(StatusNote::ModelRunning);
            return None;
        }
        match &self.project {
            Some(p) => if p.active < p.masters.len() { Some(p.masters[p.active].dirty) } else { Some(false) },
            None => Some(false),
        }
    }

    /// Start a model run of `task`, on the glyph at `glyph` or on every
    /// glyph, once saved; `source_is_dir` says whether the active
    /// master's source is a directory on disk, which the tool reads. The
    /// other master is the last when the first is active, the first
    /// otherwise. The panel and the status bar say what runs, and a job
    /// is going. Without a font, a chosen model or the tool, or with no
    /// glyph at `glyph`, nothing starts; an unsaved source is refused.
    pub fn task_request(&mut self, task: String, glyph: Option<usize>, source_is_dir: bool) -> (r: Option<TaskRun>)
        requires
            old(self).refs_ok(),
        ensures
            !(old(self).has_font() && old(self).models.dir is Some && old(self).models.binary is Some)
                ==> r is None && *final(self) == *old(self),
            (old(self).has_font() && old(self).models.dir is Some && old(self).models.binary is Some) ==> {
                let p = old(self).project->0;
                let m = p.active_master();
                if !source_is_dir {
                    r is None && *final(self) == (Workspace {
                        status_note: Some(StatusNote::SaveBeforeRunning),
                        ..*old(self)
                    })
                } else if glyph matches Some(i) && i >= m.glyphs@.len() {
                    r is None && *final(self) == *old(self)
                } else {
                    let name = match glyph { Some(i) => Some(m.glyphs@[i as int].name), None => None };
                    &&& r == Some(TaskRun {
                        binary: old(self).models.binary->0,
                        task,
                        model: old(self).models.dir->0,
                        source: m.source_path,
                        glyph: name,
                        strength_bits: old(self).models.strength_bits,
                        reference: if p.masters@.len() > 1 {
                            Some(p.masters@[if p.active == 0 { p.masters@.len() - 1 } else { 0 }].source_path)
                        } else {
                            None
                        },
                    })
                    &&& final(self).models.busy matches Some(b)
                    &&& b@ == running_line(task@, match name { Some(n) => Some(n@), None => None })
                    &&& final(self).status_note == Some(StatusNote::RunningTask(task, name))
                    &&& *final(self) == (Workspace {
                        models: crate::model::ModelsState { busy: final(self).models.busy, job: true, ..old(self).models },
                        status_note: final(self).status_note,
                        ..*old(self)
                    })
                }
            },
    {
        let Some(model) = self.models.dir.clone() else {
            return None;
        };
        let Some(binary) = self.models.binary.clone() else {
            return None;
        };
        let Some(p) = &self.project else {
            return None;
        };
        let a = p.active;
        if a >= p.masters.len() {
            return None;
        }
        if !source_is_dir {
            self.status_note = Some(StatusNote::SaveBeforeRunning);
            return None;
        }
        let name = match glyph {
            Some(i) => {
                if i >= p.masters[a].glyphs.len() {
                    return None;
                }
                Some(p.masters[a].glyphs[i].name.clone())
            },
            None => None,
        };
        let reference = if p.masters.len() > 1 {
            let other = if a == 0 { p.masters.len() - 1 } else { 0 };
            Some(p.masters[other].source_path.clone())
        } else {
            None
        };
        let source = p.masters[a].source_path.clone();
        let line = match &name {
            Some(n) => {
                let x = joined(&chars_of("Running "), &chars_of(task.as_str()));
                let y = joined(&x, &chars_of(" on "));
                let z = joined(&y, &chars_of(n.as_str()));
                joined(&z, &chars_of("…"))
            },
            None => {
                let x = joined(&chars_of("Running "), &chars_of(task.as_str()));
                joined(&x, &chars_of(" on every glyph…"))
            },
        };
        self.models.busy = Some(string_of(&line));
        self.models.job = true;
        self.status_note = Some(StatusNote::RunningTask(task.clone(), name.clone()));
        Some(TaskRun {
            binary,
            task,
            model,
            source,
            glyph: name,
            strength_bits: self.models.strength_bits,
            reference,
        })
    }

    /// A running task reported progress: the panel's busy line follows.
    pub fn task_progress(&mut self, task: &str, done: usize, total: usize, glyph: &str)
        ensures
            final(self).models.busy matches Some(b)
                && b@ == task_progress_line(task@, done as nat, total as nat, glyph@),
            *final(self) == (Workspace {
                models: crate::model::ModelsState { busy: final(self).models.busy, ..old(self).models },
                ..*old(self)
            }),
    {
        let a = joined(&chars_of(task), &chars_of(": "));
        let b = joined(&a, &decimal(done as u128));
        let c = joined(&b, &chars_of("/"));
        let d = joined(&c, &decimal(total as u128));
        let e = joined(&d, &chars_of(" ("));
        let f = joined(&e, &chars_of(glyph));
        let g = joined(&f, &chars_of(")"));
        self.models.busy = Some(string_of(&g));
    }

    /// A run ended: the panel is no longer busy and no job is going; a
    /// run that failed says why. A run that came back goes on to adopt
    /// its proposal (see `task_finished`).
    pub fn finish_task_run(&mut self, failure: Option<String>)
        ensures
            *final(self) == (Workspace {
                models: crate::model::ModelsState { busy: None, job: false, ..old(self).models },
                status_note: match failure {
                    Some(e) => Some(StatusNote::ModelFailed(e)),
                    None => old(self).status_note,
                },
                ..*old(self)
            }),
    {
        self.models.busy = None;
        self.models.job = false;
        if let Some(e) = failure {
            self.status_note = Some(StatusNote::ModelFailed(e));
        }
    }

    /// Drop a waiting proposal without installing it: the request.
    pub fn discard_proposal(&self, task: String) -> (ops: Vec<EngineOp>)
        ensures
            self.has_font() ==> ops@ == seq![EngineOp::DiscardProposal(task)],
            !self.has_font() ==> ops@ == seq![EngineOp::RefreshProposals],
    {
        let mut ops = Vec::new();
        if self.font_open() {
            ops.push(EngineOp::DiscardProposal(task));
        } else {
            ops.push(EngineOp::RefreshProposals);
        }
        ops
    }

    /// The discard, once the engine answers with how many glyphs went.
    pub fn finish_discard_proposal(&mut self, outcome: Result<usize, String>) -> (ops: Vec<EngineOp>)
        ensures
            ops@ == seq![EngineOp::RefreshProposals],
            *final(self) == (Workspace {
                status_note: Some(match outcome {
                    Ok(n) => StatusNote::DiscardedProposal(n),
                    Err(e) => StatusNote::Text(e),
                }),
                ..*old(self)
            }),
    {
        self.status_note = Some(match outcome {
            Ok(n) => StatusNote::DiscardedProposal(n),
            Err(e) => StatusNote::Text(e),
        });
        let mut ops = Vec::new();
        ops.push(EngineOp::RefreshProposals);
        ops
    }
}


/// Whether a line the model tool wrote to its error stream tells what
/// went wrong: it is neither a progress line nor blank.
pub open spec fn error_line(line: Seq<char>) -> bool {
    progress_of(line) is None && trim(line).len() > 0
}

/// Whether the line tells what went wrong.
pub fn is_error_line(line: &str) -> (r: bool)
    ensures
        r == error_line(line@),
{
    parse_progress(line).is_none() && trimmed(&chars_of(line)).len() > 0
}

/// How a model run ended, from whether it succeeded, whether it exited
/// on its own (a run that was stopped has no exit code), the error its
/// report names, and the last line of its error stream that told what
/// went wrong.
pub open spec fn run_end_of(success: bool, exited: bool, report_error: Option<Seq<char>>,
    last_error: Seq<char>) -> Result<(), Seq<char>> {
    if success {
        Ok(())
    } else if !exited {
        Err("cancelled"@)
    } else {
        match report_error {
            Some(e) => Err(e),
            None => Err(last_error),
        }
    }
}

/// How a model run ended: `Ok` for its report, else why it failed.
pub fn run_end(success: bool, exited: bool, report_error: Option<String>, last_error: String) -> (r: Result<(), String>)
    ensures
        r matches Ok(_) ==> run_end_of(success, exited, match report_error { Some(e) => Some(e@), None => None }, last_error@) == Ok::<(), Seq<char>>(()),
        r matches Err(e) ==> run_end_of(success, exited, match report_error { Some(e) => Some(e@), None => None }, last_error@) == Err::<(), Seq<char>>(e@),
{
    if success {
        Ok(())
    } else if !exited {
        Err(String::from_str("cancelled"))
    } else {
        match report_error {
            Some(e) => Err(e),
            None => Err(last_error),
        }
    }
}

} // verus!
