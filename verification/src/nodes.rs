//! A nodes file in the panel: its label, opening and closing it, and
//! how each run event changes its rows.
use std::collections::BTreeMap;
use vstd::prelude::*;
use crate::model::{EngineOp, GraphState, NodeStatus, RowState, StatusNote, Workspace};
use crate::decimal::{dec, decimal};
use crate::text::{chars_of, ends_with, has_prefix, has_suffix, joined, slice, starts_with, string_of};
use crate::tasks::text_is;

verus! {

/// What follows the last `/` of `p`; all of `p` when it has none.
pub open spec fn after_last_slash(p: Seq<char>) -> Seq<char>
    decreases p.len(),
{
    if p.len() == 0 {
        p
    } else if p.last() == '/' {
        Seq::empty()
    } else {
        after_last_slash(p.drop_last()).push(p.last())
    }
}

/// The last component of a path, as `std::path::Path::file_name` reads
/// it where `/` is the only separator: trailing slashes and `.`
/// components do not count, and a path that ends in `..` or has no
/// named component has none.
pub open spec fn file_name_of(path: Seq<char>) -> Option<Seq<char>>
    decreases path.len(),
{
    if path.len() == 0 {
        None
    } else if path.last() == '/' {
        file_name_of(path.drop_last())
    } else {
        let last = after_last_slash(path);
        if last == seq!['.'] {
            file_name_of(path.drop_last())
        } else if last == seq!['.', '.'] {
            None
        } else {
            Some(last)
        }
    }
}

/// `std::path::Path::file_name` on a path held as text, on a target
/// whose only separator is `/`: the last component that is neither empty
/// nor `.`, none when that is `..` or there is none. The name is text
/// too, since a part of valid text is valid text.
#[verifier::external_body]
pub(crate) fn path_file_name(path: &str) -> (r: Option<String>)
    ensures
        r matches Some(n) ==> file_name_of(path@) == Some(n@),
        r is None ==> file_name_of(path@) is None,
{
    std::path::Path::new(path).file_name().and_then(|n| n.to_str()).map(|n| n.to_string())
}

/// `s` with every trailing copy of `suffix` taken off.
pub open spec fn strip_suffixes(s: Seq<char>, suffix: Seq<char>) -> Seq<char>
    decreases s.len(),
{
    if suffix.len() > 0 && ends_with(s, suffix) {
        strip_suffixes(s.subrange(0, s.len() - suffix.len()), suffix)
    } else {
        s
    }
}

/// The label of a nodes file: its file name without the `.nodes.json`
/// ending (`bolden.nodes.json` reads `bolden`), empty when the path has
/// no file name.
pub open spec fn label_of(path: Seq<char>) -> Seq<char> {
    match file_name_of(path) {
        Some(n) => strip_suffixes(n, ".nodes.json"@),
        None => Seq::empty(),
    }
}

pub fn file_label(path: &str) -> (r: String)
    ensures
        r@ == label_of(path@),
{
    let Some(name) = path_file_name(path) else {
        return String::new();
    };
    let suffix = chars_of(".nodes.json");
    let mut s = chars_of(name.as_str());
    if suffix.len() == 0 {
        return string_of(&s);
    }
    while has_suffix(&s, &suffix)
        invariant
            suffix@.len() > 0,
            strip_suffixes(s@, suffix@) == strip_suffixes(name@, suffix@),
        decreases s@.len(),
    {
        s = slice(&s, 0, s.len() - suffix.len());
    }
    string_of(&s)
}

/// One event of a run, as the runner reports it, with what the panel
/// shows of it already in words: the row's title, and how long a node
/// that ran took.
#[derive(Debug)]
pub enum NodeEvent {
    Start(u32),
    Progress { id: u32, done: usize, total: usize, label: String, title: String },
    End { id: u32, status: NodeStatus, took: String, error: Option<String> },
}

/// The progress line of a row: `<done>/<total> <label>`.
pub open spec fn progress_line(done: nat, total: nat, label: Seq<char>) -> Seq<char> {
    dec(done) + "/"@ + dec(total) + " "@ + label
}

/// The row a run event leaves.
pub open spec fn row_after(event: NodeEvent, row: RowState) -> bool {
    match event {
        NodeEvent::Start(_) => row == RowState::Running(None),
        NodeEvent::Progress { done, total, label, .. } => row matches RowState::Running(Some(t))
            && t@ == progress_line(done as nat, total as nat, label@),
        NodeEvent::End { status, took, error, .. } => match error {
            Some(e) => row == RowState::Done(status, Some(e)),
            None => if status == NodeStatus::Ran {
                row == RowState::Done(status, Some(took))
            } else {
                row == RowState::Done(status, None)
            },
        },
    }
}

pub open spec fn event_id(event: NodeEvent) -> u32 {
    match event {
        NodeEvent::Start(id) => id,
        NodeEvent::Progress { id, .. } => id,
        NodeEvent::End { id, .. } => id,
    }
}

/// One node as a finished run reports it: its id, its type, how it
/// ended, the error it gave, and a line of what it made.
#[derive(Debug)]
pub struct NodeOutcome {
    pub id: u32,
    pub kind: String,
    pub status: NodeStatus,
    pub error: Option<String>,
    pub summary: String,
}

/// The row a finished node leaves: a failure shows its error, a node
/// that ran what it made, a skipped one `unchanged`, a blocked one
/// nothing.
pub open spec fn final_row(n: NodeOutcome, row: RowState) -> bool {
    match n.status {
        NodeStatus::Failed => row == RowState::Done(NodeStatus::Failed, n.error),
        NodeStatus::Ran => row == RowState::Done(NodeStatus::Ran, Some(n.summary)),
        NodeStatus::Skipped => row matches RowState::Done(st, Some(t)) && st == NodeStatus::Skipped
            && t@ == "unchanged"@,
        NodeStatus::Blocked => row == RowState::Done(NodeStatus::Blocked, None),
    }
}

/// Where the last report of node `k` stands in `nodes`, -1 when none.
pub open spec fn last_with_id(nodes: Seq<NodeOutcome>, k: u32) -> int
    decreases nodes.len(),
{
    if nodes.len() == 0 {
        -1
    } else if nodes.last().id == k {
        nodes.len() - 1
    } else {
        last_with_id(nodes.drop_last(), k)
    }
}

/// How many of `nodes` ended as `st`.
pub open spec fn count_status(nodes: Seq<NodeOutcome>, st: NodeStatus) -> nat
    decreases nodes.len(),
{
    if nodes.len() == 0 {
        0
    } else {
        count_status(nodes.drop_last(), st) + if nodes.last().status == st { 1nat } else { 0nat }
    }
}

/// Whether an install node ran, which changes the font on disk.
pub open spec fn installed(nodes: Seq<NodeOutcome>) -> bool {
    exists|i: int| 0 <= i < nodes.len() && #[trigger] nodes[i].status == NodeStatus::Ran
        && nodes[i].kind@ == "core.install"@
}

/// The rows after a run: each reported node shows its last report,
/// the others stay.
pub open spec fn rows_finished(g: Map<u32, RowState>, nodes: Seq<NodeOutcome>, f: Map<u32, RowState>) -> bool {
    &&& forall|k: u32| #[trigger] f.contains_key(k) <==> (g.contains_key(k) || last_with_id(nodes, k) >= 0)
    &&& forall|k: u32| g.contains_key(k) && #[trigger] last_with_id(nodes, k) < 0 ==> f[k] == g[k]
    &&& forall|k: u32| #[trigger] last_with_id(nodes, k) >= 0 ==> final_row(nodes[last_with_id(nodes, k)], f[k])
}

proof fn lemma_last_with_id_range(nodes: Seq<NodeOutcome>, k: u32)
    ensures
        -1 <= last_with_id(nodes, k) < nodes.len(),
        last_with_id(nodes, k) >= 0 ==> nodes[last_with_id(nodes, k)].id == k,
    decreases nodes.len(),
{
    if nodes.len() > 0 && nodes.last().id != k {
        lemma_last_with_id_range(nodes.drop_last(), k);
    }
}

proof fn lemma_count_le(nodes: Seq<NodeOutcome>, st: NodeStatus)
    ensures
        count_status(nodes, st) <= nodes.len(),
    decreases nodes.len(),
{
    if nodes.len() > 0 {
        lemma_count_le(nodes.drop_last(), st);
    }
}

/// One output of a node that ran, as the runner reports it.
#[derive(Debug)]
pub enum RunOutput {
    /// A layer, by name.
    Layer(String),
    /// A table of this many rows.
    Rows(usize),
    /// A file, by path.
    Path(String),
    /// This many glyphs.
    Glyphs(usize),
    /// Anything else, which the line leaves out.
    Other,
}

/// `s` with every leading copy of `prefix` taken off.
pub open spec fn strip_prefixes(s: Seq<char>, prefix: Seq<char>) -> Seq<char>
    decreases s.len(),
{
    if prefix.len() > 0 && starts_with(s, prefix) {
        strip_prefixes(s.subrange(prefix.len() as int, s.len() as int), prefix)
    } else {
        s
    }
}

/// What an output of the given name adds to a node's line: a layer's
/// name without the proposal prefix, `<n> <name>` for rows, a file's
/// label, `<n> glyphs` for some glyphs; nothing for no glyphs or
/// anything else.
pub open spec fn output_part(name: Seq<char>, o: RunOutput) -> Option<Seq<char>> {
    match o {
        RunOutput::Layer(l) => Some(strip_prefixes(l@, "com.runebender.proposal."@)),
        RunOutput::Rows(n) => Some(dec(n as nat) + " "@ + name),
        RunOutput::Path(p) => Some(label_of(p@)),
        RunOutput::Glyphs(n) => if n > 0 { Some(dec(n as nat) + " glyphs"@) } else { None },
        RunOutput::Other => None,
    }
}

/// The parts of a node's line, one per output that adds one, in order.
pub open spec fn output_parts(outs: Seq<(String, RunOutput)>) -> Seq<Seq<char>>
    decreases outs.len(),
{
    if outs.len() == 0 {
        Seq::empty()
    } else {
        let rest = output_parts(outs.drop_last());
        match output_part(outs.last().0@, outs.last().1) {
            Some(t) => rest.push(t),
            None => rest,
        }
    }
}

/// `parts` joined with ` · `.
pub open spec fn joined_parts(parts: Seq<Seq<char>>) -> Seq<char>
    decreases parts.len(),
{
    if parts.len() == 0 {
        Seq::empty()
    } else if parts.len() == 1 {
        parts[0]
    } else {
        joined_parts(parts.drop_last()) + " · "@ + parts.last()
    }
}

/// The line of a node that ran: what its outputs gave, then `scores`
/// (the model's and the unchanged glyph's, in words) when the report
/// has both, joined with ` · `; `took`, how long it ran, when there is
/// nothing else to say.
pub open spec fn node_line(outs: Seq<(String, RunOutput)>, scores: Option<String>, took: Seq<char>) -> Seq<char> {
    let parts = output_parts(outs) + match scores { Some(s) => seq![s@], None => Seq::empty() };
    if parts.len() == 0 { took } else { joined_parts(parts) }
}

fn strip_leading(s: &Vec<char>, prefix: &Vec<char>) -> (r: Vec<char>)
    ensures
        r@ == strip_prefixes(s@, prefix@),
{
    let mut cur = slice(s, 0, s.len());
    assert(cur@ =~= s@);
    if prefix.len() == 0 {
        return cur;
    }
    while has_prefix(&cur, prefix)
        invariant
            prefix@.len() > 0,
            strip_prefixes(cur@, prefix@) == strip_prefixes(s@, prefix@),
        decreases cur@.len(),
    {
        cur = slice(&cur, prefix.len(), cur.len());
    }
    cur
}

fn part_of(name: &String, o: &RunOutput) -> (r: Option<Vec<char>>)
    ensures
        match r {
            Some(v) => output_part(name@, *o) == Some(v@),
            None => output_part(name@, *o) is None,
        },
{
    match o {
        RunOutput::Layer(l) => Some(strip_leading(&chars_of(l.as_str()), &chars_of("com.runebender.proposal."))),
        RunOutput::Rows(n) => {
            let a = joined(&decimal(*n as u128), &chars_of(" "));
            Some(joined(&a, &chars_of(name.as_str())))
        },
        RunOutput::Path(p) => Some(chars_of(file_label(p.as_str()).as_str())),
        RunOutput::Glyphs(n) => if *n > 0 {
            Some(joined(&decimal(*n as u128), &chars_of(" glyphs")))
        } else {
            None
        },
        RunOutput::Other => None,
    }
}

/// The line a node that ran shows in its row.
pub fn summary_line(outs: &Vec<(String, RunOutput)>, scores: Option<String>, took: String) -> (r: String)
    ensures
        r@ == node_line(outs@, scores, took@),
{
    let mut line: Vec<char> = Vec::new();
    let mut count: usize = 0;
    let sep = chars_of(" · ");
    let mut j: usize = 0;
    while j < outs.len()
        invariant
            j <= outs@.len(),
            sep@ == " · "@,
            count == output_parts(outs@.subrange(0, j as int)).len(),
            count <= j,
            line@ == joined_parts(output_parts(outs@.subrange(0, j as int))),
        decreases outs@.len() - j,
    {
        let ghost pre = outs@.subrange(0, j as int);
        let ghost post = outs@.subrange(0, j as int + 1);
        assert(post.drop_last() =~= pre);
        if let Some(t) = part_of(&outs[j].0, &outs[j].1) {
            let ghost parts = output_parts(pre);
            assert(output_parts(post) == parts.push(t@));
            assert(parts.push(t@).drop_last() =~= parts);
            if count == 0 {
                line = t;
            } else {
                line = joined(&joined(&line, &sep), &t);
            }
            count = count + 1;
        }
        j = j + 1;
    }
    assert(outs@.subrange(0, outs@.len() as int) =~= outs@);
    let ghost parts = output_parts(outs@);
    match scores {
        Some(s) => {
            let ghost all = parts + seq![s@];
            assert(all.drop_last() =~= parts);
            let t = chars_of(s.as_str());
            if count == 0 {
                line = t;
            } else {
                line = joined(&joined(&line, &sep), &t);
            }
            string_of(&line)
        },
        None => {
            assert(parts + Seq::<Seq<char>>::empty() =~= parts);
            if count == 0 {
                took
            } else {
                string_of(&line)
            }
        },
    }
}

fn rows_waiting(rows: &BTreeMap<u32, RowState>) -> (r: BTreeMap<u32, RowState>)
    ensures
        r@.dom() == rows@.dom(),
        forall|k: u32| #[trigger] r@.contains_key(k) ==> r@[k] == RowState::Waiting,
{
    broadcast use vstd::std_specs::btree::group_btree_axioms;
    let mut r: BTreeMap<u32, RowState> = BTreeMap::new();
    for k in it: rows.keys()
        invariant
            it.seq().unref().to_set() == rows@.dom(),
            forall|x: u32| #[trigger] r@.contains_key(x) <==> it.seq().subrange(0, it.index() as int).unref().contains(x),
            forall|x: u32| #[trigger] r@.contains_key(x) ==> r@[x] == RowState::Waiting,
            it.index() == it.seq().len() ==> r@.dom() == rows@.dom(),
    {
        assert(it.index() < it.seq().len());
        assert(k == it.seq()[it.index() as int]);
        r.insert(*k, RowState::Waiting);
        assert(it.seq().subrange(0, it.index() + 1).unref() =~= it.seq().subrange(0, it.index() as int).unref().push(*k));
        assert forall|x: u32| #[trigger] r@.contains_key(x) <==> it.seq().subrange(0, it.index() + 1).unref().contains(x) by {
            let pre = it.seq().subrange(0, it.index() as int).unref();
            let post = pre.push(*k);
            if x == *k {
                assert(post[post.len() - 1] == x);
            } else {
                if pre.contains(x) {
                    let j = choose|j: int| 0 <= j < pre.len() && pre[j] == x;
                    assert(post[j] == x);
                }
                if post.contains(x) {
                    let j = choose|j: int| 0 <= j < post.len() && post[j] == x;
                    assert(pre[j] == x);
                }
            }
        }
        assert(it.index() + 1 == it.seq().len() ==> it.seq().subrange(0, it.index() + 1) =~= it.seq());
        assert(it.index() + 1 == it.seq().len() ==> r@.dom() =~= rows@.dom());
    }
    r
}

/// A run of the open nodes file: the file, the font the runner reads,
/// the master it works on (by its style name) and the glyphs selected,
/// the tools it may call, by name and path, and where models are kept.
#[derive(Debug)]
pub struct NodesRun {
    pub path: String,
    pub font: String,
    pub master: Option<String>,
    pub glyphs: Vec<String>,
    pub tools: Vec<(String, String)>,
    pub models_dir: Option<String>,
}

/// What asking to run the open nodes file leads to.
#[derive(Debug)]
pub enum NodesStep {
    /// Nothing runs; the status bar says why, when there is a why.
    Refused,
    /// Masters have unsaved edits, which the runner, reading the disk,
    /// needs saved; ask again once saved.
    SaveFirst,
    Started(NodesRun),
}

/// The panel's busy line while a nodes file runs: `Running <label>…`.
pub open spec fn nodes_busy_line(path: Seq<char>) -> Seq<char> {
    "Running "@ + label_of(path) + "…"@
}

impl GraphState {
    /// A nodes file as the panel opens it, once read: `nodes` are its
    /// node ids, `order` the run order when it has one, `problems` what
    /// stops it running. Every node's row waits; no run is going.
    pub fn open(path: String, nodes: Vec<u32>, order: Option<Vec<u32>>, problems: Vec<String>) -> (g: GraphState)
        ensures
            g.path == path,
            g.order@ == match order { Some(o) => o@, None => Seq::empty() },
            g.problems == problems,
            forall|id: u32| #[trigger] g.rows@.contains_key(id) <==> nodes@.contains(id),
            forall|id: u32| g.rows@.contains_key(id) ==> #[trigger] g.rows@[id] == RowState::Waiting,
            !g.running,
    {
        broadcast use vstd::std_specs::btree::group_btree_axioms;
        let mut rows: BTreeMap<u32, RowState> = BTreeMap::new();
        let mut j: usize = 0;
        while j < nodes.len()
            invariant
                j <= nodes@.len(),
                forall|id: u32| #[trigger] rows@.contains_key(id) <==> nodes@.subrange(0, j as int).contains(id),
                forall|id: u32| rows@.contains_key(id) ==> #[trigger] rows@[id] == RowState::Waiting,
            decreases nodes@.len() - j,
        {
            let ghost pre = nodes@.subrange(0, j as int);
            let ghost post = nodes@.subrange(0, j as int + 1);
            assert forall|id: u32| post.contains(id) <==> (pre.contains(id) || id == nodes@[j as int]) by {
                if post.contains(id) {
                    let k = choose|k: int| 0 <= k < post.len() && post[k] == id;
                    if k < pre.len() {
                        assert(pre[k] == id);
                    }
                }
                if pre.contains(id) {
                    let k = choose|k: int| 0 <= k < pre.len() && pre[k] == id;
                    assert(post[k] == id);
                }
                if id == nodes@[j as int] {
                    assert(post[j as int] == id);
                }
            }
            rows.insert(nodes[j], RowState::Waiting);
            j = j + 1;
        }
        assert(nodes@.subrange(0, nodes@.len() as int) =~= nodes@);
        let order = match order {
            Some(o) => o,
            None => Vec::new(),
        };
        GraphState { path, order, problems, rows, running: false }
    }
}

impl Workspace {
    /// Open a nodes file in the panel, once it has been read. A file
    /// that does not validate still opens, with its problems counted,
    /// so it can be fixed; one that cannot be read shows why.
    pub fn open_nodes_file(&mut self, path: &str, outcome: Result<GraphState, String>)
        ensures
            match outcome {
                Ok(state) => {
                    &&& final(self).models.graph == Some(state)
                    &&& final(self).status_note matches Some(note)
                    &&& if state.problems@.len() == 0 {
                        note matches StatusNote::OpenedNodes(l) && l@ == label_of(path@)
                    } else {
                        note matches StatusNote::NodeProblems(l, n) && l@ == label_of(path@) && n == state.problems@.len()
                    }
                    &&& *final(self) == (Workspace {
                        models: crate::model::ModelsState { graph: final(self).models.graph, ..old(self).models },
                        status_note: final(self).status_note,
                        ..*old(self)
                    })
                },
                Err(e) => *final(self) == (Workspace { status_note: Some(StatusNote::Text(e)), ..*old(self) }),
            },
    {
        match outcome {
            Ok(state) => {
                let n = state.problems.len();
                self.models.graph = Some(state);
                let label = file_label(path);
                self.status_note = Some(if n == 0 {
                    StatusNote::OpenedNodes(label)
                } else {
                    StatusNote::NodeProblems(label, n)
                });
            },
            Err(e) => {
                self.status_note = Some(StatusNote::Text(e));
            },
        }
    }

    /// Close the file in the panel.
    pub fn close_nodes_file(&mut self)
        ensures
            *final(self) == (Workspace {
                models: crate::model::ModelsState { graph: None, ..old(self).models },
                ..*old(self)
            }),
    {
        self.models.graph = None;
    }

    /// The run ended: the panel is no longer busy, each reported node's
    /// row shows how it ended, and the status bar counts the nodes that
    /// ran and the others, or, when the run failed, the failures. An
    /// install node that ran changed the font on disk, which the engine
    /// reads again; the proposal list is refreshed either way.
    pub fn nodes_finished(&mut self, nodes: Vec<NodeOutcome>, ok: bool) -> (ops: Vec<EngineOp>)
        ensures
            final(self).models.busy is None,
            old(self).models.graph is None ==> final(self).models.graph is None,
            old(self).models.graph matches Some(g) ==> {
                &&& final(self).models.graph matches Some(fg)
                &&& rows_finished(g.rows@, nodes@, fg.rows@)
                &&& fg == (GraphState { rows: fg.rows, running: false, ..g })
            },
            final(self).status_note == Some(if ok {
                StatusNote::NodesRan(
                    count_status(nodes@, NodeStatus::Ran) as usize,
                    (nodes@.len() - count_status(nodes@, NodeStatus::Ran)) as usize,
                )
            } else {
                StatusNote::NodesFailed(count_status(nodes@, NodeStatus::Failed) as usize)
            }),
            ops@ == if installed(nodes@) {
                seq![EngineOp::ReloadFromDisk, EngineOp::RefreshProposals]
            } else {
                seq![EngineOp::RefreshProposals]
            },
            *final(self) == (Workspace {
                models: crate::model::ModelsState {
                    graph: final(self).models.graph,
                    busy: None,
                    ..old(self).models
                },
                status_note: final(self).status_note,
                ..*old(self)
            }),
    {
        broadcast use vstd::std_specs::btree::group_btree_axioms;
        self.models.busy = None;
        let mut ran: usize = 0;
        let mut failed: usize = 0;
        let mut install = false;
        let mut graph = self.models.graph.take();
        let ghost g0 = graph;
        let mut j: usize = 0;
        while j < nodes.len()
            invariant
                j <= nodes@.len(),
                ran == count_status(nodes@.subrange(0, j as int), NodeStatus::Ran),
                failed == count_status(nodes@.subrange(0, j as int), NodeStatus::Failed),
                install == installed(nodes@.subrange(0, j as int)),
                g0 is None ==> graph is None,
                g0 matches Some(g) ==> graph matches Some(cur) && cur == (GraphState { rows: cur.rows, ..g })
                    && rows_finished(g.rows@, nodes@.subrange(0, j as int), cur.rows@),
            decreases nodes@.len() - j,
        {
            let ghost pre = nodes@.subrange(0, j as int);
            let ghost post = nodes@.subrange(0, j as int + 1);
            assert(post.drop_last() =~= pre);
            assert(post.last() == nodes@[j as int]);
            proof {
                lemma_count_le(pre, NodeStatus::Ran);
                lemma_count_le(pre, NodeStatus::Failed);
            }
            let n = &nodes[j];
            if n.status == NodeStatus::Ran {
                ran = ran + 1;
            }
            if n.status == NodeStatus::Failed {
                failed = failed + 1;
            }
            let is_install = n.status == NodeStatus::Ran && text_is(&n.kind, "core.install");
            proof {
                if is_install {
                    assert(post[j as int] == nodes@[j as int]);
                }
                if installed(post) && !is_install {
                    let i = choose|i: int| 0 <= i < post.len() && #[trigger] post[i].status == NodeStatus::Ran
                        && post[i].kind@ == "core.install"@;
                    assert(pre[i] == post[i]);
                }
                if installed(pre) {
                    let i = choose|i: int| 0 <= i < pre.len() && #[trigger] pre[i].status == NodeStatus::Ran
                        && pre[i].kind@ == "core.install"@;
                    assert(post[i] == pre[i]);
                }
            }
            install = install || is_install;
            let row = match n.status {
                NodeStatus::Failed => RowState::Done(NodeStatus::Failed, n.error.clone()),
                NodeStatus::Ran => RowState::Done(NodeStatus::Ran, Some(n.summary.clone())),
                NodeStatus::Skipped => RowState::Done(NodeStatus::Skipped, Some(String::from_str("unchanged"))),
                NodeStatus::Blocked => RowState::Done(NodeStatus::Blocked, None),
            };
            proof {
                if n.status == NodeStatus::Failed {
                    assert(n.error is None ==> row == RowState::Done(NodeStatus::Failed, None));
                }
            }
            match graph {
                Some(mut cur) => {
                    let ghost before = cur.rows@;
                    cur.rows.insert(n.id, row);
                    proof {
                        let g = g0->0;
                        assert forall|k: u32| #[trigger] cur.rows@.contains_key(k) <==> (g.rows@.contains_key(k) || last_with_id(post, k) >= 0) by {
                            lemma_last_with_id_range(pre, k);
                        }
                        assert forall|k: u32| g.rows@.contains_key(k) && #[trigger] last_with_id(post, k) < 0 implies cur.rows@[k] == g.rows@[k] by {
                            lemma_last_with_id_range(pre, k);
                        }
                        assert forall|k: u32| #[trigger] last_with_id(post, k) >= 0 implies final_row(post[last_with_id(post, k)], cur.rows@[k]) by {
                            lemma_last_with_id_range(pre, k);
                            if k != nodes@[j as int].id {
                                assert(last_with_id(post, k) == last_with_id(pre, k));
                                assert(post[last_with_id(pre, k)] == pre[last_with_id(pre, k)]);
                            }
                        }
                    }
                    graph = Some(cur);
                },
                None => {},
            }
            j = j + 1;
        }
        assert(nodes@.subrange(0, nodes@.len() as int) =~= nodes@);
        if let Some(mut g) = graph {
            g.running = false;
            graph = Some(g);
        }
        self.models.graph = graph;
        proof {
            lemma_count_le(nodes@, NodeStatus::Ran);
        }
        self.status_note = Some(if ok {
            StatusNote::NodesRan(ran, nodes.len() - ran)
        } else {
            StatusNote::NodesFailed(failed)
        });
        let mut ops = Vec::new();
        if install {
            ops.push(EngineOp::ReloadFromDisk);
        }
        ops.push(EngineOp::RefreshProposals);
        ops
    }

    /// Run the open nodes file. Nothing runs without one, nor while it
    /// runs, nor while it has problems (the first is shown), nor while a
    /// model runs, nor without a font. Unsaved edits are saved first,
    /// unless `saved` says they just were. A run that starts puts every
    /// row back to waiting and says in the panel what runs; the model
    /// tool, when found, is the runner's `font-ml`; the runner works on
    /// the active master and the current glyph, and looks for models in
    /// `models_dir`.
    pub fn nodes_request(&mut self, saved: bool, models_dir: Option<String>) -> (step: NodesStep)
        requires
            old(self).refs_ok(),
        ensures
            ({
                let w = *old(self);
                let refused = |n: StatusNote| step is Refused && *final(self) == (Workspace { status_note: Some(n), ..w });
                match w.models.graph {
                    None => step is Refused && *final(self) == w,
                    Some(g) => if g.running {
                        refused(StatusNote::NodesRunning)
                    } else if g.problems@.len() > 0 {
                        refused(StatusNote::Text(g.problems@[0]))
                    } else if w.models.busy is Some {
                        refused(StatusNote::ModelRunning)
                    } else if !saved && w.any_dirty() {
                        step is SaveFirst && *final(self) == w
                    } else if w.project is None {
                        step is Refused && *final(self) == w
                    } else {
                        &&& step matches NodesStep::Started(run)
                        &&& run.path == g.path
                        &&& Some(run.font@) == w.export_source_of()
                        &&& run.tools@.len() == if w.models.binary is Some { 1int } else { 0int }
                        &&& w.models.binary matches Some(b) ==> run.tools@[0].0@ == "font-ml"@ && run.tools@[0].1 == b
                        &&& run.master == w.project->0.active_master().style_name
                        &&& run.glyphs@ == match w.current_glyph() {
                            Some(i) => seq![w.project->0.active_master().glyphs@[i as int].name],
                            None => Seq::empty(),
                        }
                        &&& run.models_dir == models_dir
                        &&& final(self).models.graph matches Some(fg)
                        &&& fg.rows@.dom() == g.rows@.dom()
                        &&& forall|k: u32| #[trigger] fg.rows@.contains_key(k) ==> fg.rows@[k] == RowState::Waiting
                        &&& fg == (GraphState { rows: fg.rows, running: true, ..g })
                        &&& final(self).models.busy matches Some(b) && b@ == nodes_busy_line(g.path@)
                        &&& *final(self) == (Workspace {
                            models: crate::model::ModelsState {
                                graph: final(self).models.graph,
                                busy: final(self).models.busy,
                                ..w.models
                            },
                            ..w
                        })
                    },
                }
            }),
    {
        let Some(g) = &self.models.graph else {
            return NodesStep::Refused;
        };
        if g.running {
            self.status_note = Some(StatusNote::NodesRunning);
            return NodesStep::Refused;
        }
        if g.problems.len() > 0 {
            self.status_note = Some(StatusNote::Text(g.problems[0].clone()));
            return NodesStep::Refused;
        }
        if self.models.busy.is_some() {
            self.status_note = Some(StatusNote::ModelRunning);
            return NodesStep::Refused;
        }
        let (save, font) = self.export_request();
        if !saved && save.len() > 0 {
            return NodesStep::SaveFirst;
        }
        let Some(font) = font else {
            return NodesStep::Refused;
        };
        let mut tools: Vec<(String, String)> = Vec::new();
        if let Some(b) = &self.models.binary {
            tools.push((String::from_str("font-ml"), b.clone()));
        }
        let Some(p) = &self.project else {
            return NodesStep::Refused;
        };
        let master = p.masters[p.active].style_name.clone();
        let mut glyphs: Vec<String> = Vec::new();
        if let Some(i) = self.current_glyph_index() {
            glyphs.push(p.masters[p.active].glyphs[i].name.clone());
        }
        let Some(mut g) = self.models.graph.take() else {
            return NodesStep::Refused;
        };
        g.rows = rows_waiting(&g.rows);
        g.running = true;
        let path = g.path.clone();
        let a = joined(&chars_of("Running "), &chars_of(file_label(path.as_str()).as_str()));
        let line = joined(&a, &chars_of("…"));
        self.models.graph = Some(g);
        self.models.busy = Some(string_of(&line));
        NodesStep::Started(NodesRun { path, font, master, glyphs, tools, models_dir })
    }

    /// One row changes as the runner reports; progress also shows in the
    /// panel's busy line, `<title>: <done>/<total> <label>`. Nothing
    /// changes when no file is open.
    pub fn node_event(&mut self, event: NodeEvent)
        ensures
            old(self).models.graph is None ==> *final(self) == *old(self),
            old(self).models.graph matches Some(g) ==> {
                &&& final(self).models.graph matches Some(fg)
                &&& fg.rows@.dom() == g.rows@.dom().insert(event_id(event))
                &&& forall|k: u32| k != event_id(event) && #[trigger] g.rows@.contains_key(k)
                    ==> fg.rows@[k] == g.rows@[k]
                &&& row_after(event, fg.rows@[event_id(event)])
                &&& fg == (GraphState { rows: fg.rows, ..g })
                &&& final(self).models.busy == match event {
                    NodeEvent::Progress { done, total, label, title, .. } => final(self).models.busy,
                    _ => old(self).models.busy,
                }
                &&& (event matches NodeEvent::Progress { done, total, label, title, .. } ==>
                    final(self).models.busy matches Some(b)
                    && b@ == title@ + ": "@ + progress_line(done as nat, total as nat, label@))
                &&& *final(self) == (Workspace {
                    models: crate::model::ModelsState {
                        graph: final(self).models.graph,
                        busy: final(self).models.busy,
                        ..old(self).models
                    },
                    ..*old(self)
                })
            },
    {
        broadcast use vstd::std_specs::btree::group_btree_axioms;
        let mut graph = match self.models.graph.take() {
            Some(g) => g,
            None => return,
        };
        let ghost g0 = graph;
        match event {
            NodeEvent::Start(id) => {
                graph.rows.insert(id, RowState::Running(None));
            },
            NodeEvent::Progress { id, done, total, label, title } => {
                let a = decimal(done as u128);
                let b = joined(&a, &chars_of("/"));
                let c = joined(&b, &decimal(total as u128));
                let d = joined(&c, &chars_of(" "));
                let line = joined(&d, &chars_of(label.as_str()));
                let t = joined(&chars_of(title.as_str()), &chars_of(": "));
                let busy = joined(&t, &line);
                graph.rows.insert(id, RowState::Running(Some(string_of(&line))));
                self.models.busy = Some(string_of(&busy));
            },
            NodeEvent::End { id, status, took, error } => {
                let note = match error {
                    Some(e) => Some(e),
                    None => match status {
                        NodeStatus::Ran => Some(took),
                        _ => None,
                    },
                };
                graph.rows.insert(id, RowState::Done(status, note));
            },
        }
        assert(graph.rows@.dom() =~= g0.rows@.dom().insert(event_id(event)));
        self.models.graph = Some(graph);
    }
}

} // verus!
