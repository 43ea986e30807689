//! The chat pane: the transcript, and what the model's replies show.
use vstd::prelude::*;
use crate::model::{ChatBusy, ChatEntry, ChatMessage, EngineOp, StatusNote, Workspace};
use crate::tasks::text_is;
use crate::grid::lex_lt;
use crate::decimal::{dec, decimal};
use crate::text::{trim, trimmed};
use crate::text::{chars_of, find, find_at, find_from, joined, occurs_at, slice, string_of, trim_start, trimmed_start};

verus! {

/// The tag that opens a tool block in a reply.
pub open spec fn tool_open() -> Seq<char> {
    seq!['<', 't', 'o', 'o', 'l', '_', 'c', 'a', 'l', 'l', '>']
}

/// The tag that closes a tool block.
pub open spec fn tool_close() -> Seq<char> {
    seq!['<', '/', 't', 'o', 'o', 'l', '_', 'c', 'a', 'l', 'l', '>']
}

/// Where `find_from` lands: the first occurrence at or after `k`.
pub proof fn lemma_find_from(s: Seq<char>, pat: Seq<char>, k: int)
    requires
        0 <= k,
    ensures
        find_from(s, pat, k) matches Some(j) ==> k <= j && occurs_at(s, pat, j)
            && forall|m: int| k <= m < j ==> !occurs_at(s, pat, m),
        find_from(s, pat, k) is None ==> forall|m: int| k <= m ==> !occurs_at(s, pat, m),
    decreases s.len() + 1 - k,
{
    if k + pat.len() > s.len() {
    } else if occurs_at(s, pat, k) {
    } else {
        lemma_find_from(s, pat, k + 1);
    }
}

/// Where `find` lands: the first occurrence.
pub proof fn lemma_find_from_zero(s: Seq<char>, pat: Seq<char>)
    ensures
        find(s, pat) matches Some(j) ==> 0 <= j && j + pat.len() <= s.len()
            && s.subrange(j, j + pat.len()) == pat,
{
    lemma_find_from(s, pat, 0);
}

/// `s` with every tool block cut out. A block runs from an opening tag
/// to the first closing tag after it; one left open runs to the end.
pub open spec fn strip_tool_blocks(s: Seq<char>) -> Seq<char>
    decreases s.len(),
{
    match find(s, tool_open()) {
        None => s,
        Some(i) => {
            let after = s.subrange(i, s.len() as int);
            match find(after, tool_close()) {
                Some(e) => {
                    proof {
                        lemma_find_from(s, tool_open(), 0);
                        lemma_find_from(after, tool_close(), 0);
                    }
                    s.subrange(0, i) + strip_tool_blocks(after.subrange(e + 12, after.len() as int))
                },
                None => s.subrange(0, i),
            }
        },
    }
}

/// What a reply shows in its bubble: the tool blocks cut out, leading
/// white space dropped.
pub open spec fn shown_text(raw: Seq<char>) -> Seq<char> {
    trim_start(strip_tool_blocks(raw))
}

fn tag_open() -> (r: Vec<char>)
    ensures
        r@ == tool_open(),
{
    let r = chars_of("<tool_call>");
    proof {
        reveal_strlit("<tool_call>");
    }
    assert(r@ =~= tool_open());
    r
}

fn tag_close() -> (r: Vec<char>)
    ensures
        r@ == tool_close(),
{
    let r = chars_of("</tool_call>");
    proof {
        reveal_strlit("</tool_call>");
    }
    assert(r@ =~= tool_close());
    r
}

/// The reply without its tool blocks, for the bubble.
pub fn visible_text(raw: &str) -> (r: String)
    ensures
        r@ == shown_text(raw@),
{
    let s = chars_of(raw);
    let t = visible_chars(&s);
    string_of(&t)
}

/// What a reply shows, as characters.
#[verifier::rlimit(80)]
fn visible_chars(s: &Vec<char>) -> (r: Vec<char>)
    ensures
        r@ == shown_text(s@),
{
    let open = tag_open();
    let close = tag_close();
    let mut out: Vec<char> = Vec::new();
    let mut rest = slice(s, 0, s.len());
    assert(rest@ =~= s@);
    loop
        invariant_except_break
            open@ == tool_open(),
            close@ == tool_close(),
            out@ + strip_tool_blocks(rest@) == strip_tool_blocks(s@),
        ensures
            out@ == strip_tool_blocks(s@),
        decreases rest@.len(),
    {
        match find_at(&rest, &open, 0) {
            None => {
                let ghost old_out = out@;
                out = joined(&out, &rest);
                assert(strip_tool_blocks(rest@) == rest@);
                break;
            },
            Some(i) => {
                proof {
                    lemma_find_from(rest@, tool_open(), 0);
                }
                let head = slice(&rest, 0, i);
                let after = slice(&rest, i, rest.len());
                match find_at(&after, &close, 0) {
                    None => {
                        assert(strip_tool_blocks(rest@) == head@);
                        out = joined(&out, &head);
                        break;
                    },
                    Some(e) => {
                        proof {
                            lemma_find_from(after@, tool_close(), 0);
                        }
                        let ghost old_out = out@;
                        let ghost old_rest = rest@;
                        out = joined(&out, &head);
                        rest = slice(&after, e + 12, after.len());
                        assert(strip_tool_blocks(old_rest) == head@ + strip_tool_blocks(rest@));
                        assert(out@ + strip_tool_blocks(rest@) =~= old_out + (head@ + strip_tool_blocks(rest@)));
                    },
                }
            },
        }
    }
    trimmed_start(&out)
}

/// One event of a running turn, as the model tool reports it.
#[derive(Debug)]
pub enum ChatEvent {
    /// The model is loaded on this device.
    Loaded(String),
    /// More words of the reply.
    Token(String),
    /// A tool of this name was called.
    ToolCall(String),
    /// The last tool call came back: whether it ran, and a line about it.
    ToolResult { ok: bool, note: String },
    /// The turn ended: its speed line, and the reply's final text when given.
    Done { speed: String, text: Option<String> },
    /// The conversation to send back next turn.
    Messages(Vec<ChatMessage>),
    Other,
}

/// The position of the last tool row of a transcript.
pub open spec fn last_tool(entries: Seq<ChatEntry>) -> Option<int>
    decreases entries.len(),
{
    if entries.len() == 0 {
        None
    } else if entries.last() is Tool {
        Some(entries.len() - 1)
    } else {
        last_tool(entries.drop_last())
    }
}

proof fn lemma_last_tool(entries: Seq<ChatEntry>)
    ensures
        last_tool(entries) matches Some(j) ==> 0 <= j < entries.len() && entries[j] is Tool
            && forall|m: int| j < m < entries.len() ==> !(entries[m] is Tool),
        last_tool(entries) is None ==> forall|m: int| 0 <= m < entries.len() ==> !(entries[m] is Tool),
    decreases entries.len(),
{
    if entries.len() > 0 && !(entries.last() is Tool) {
        lemma_last_tool(entries.drop_last());
        assert forall|m: int| 0 <= m < entries.len() - 1 implies entries.drop_last()[m] == entries[m] by {}
    }
}

fn entry_is_tool(entries: &Vec<ChatEntry>, i: usize) -> (r: bool)
    requires
        i < entries@.len(),
    ensures
        r == entries@[i as int] is Tool,
{
    match &entries[i] {
        ChatEntry::Tool { .. } => true,
        _ => false,
    }
}

/// Whether `e` is a bubble of the model's words showing `text`.
pub open spec fn says(e: ChatEntry, text: Seq<char>) -> bool {
    e matches ChatEntry::Assistant(s) && s@ == text
}

/// Whether `f` is the transcript `entries` after `event`.
pub open spec fn transcript_after(entries: Seq<ChatEntry>, event: ChatEvent, f: Seq<ChatEntry>) -> bool {
    let n = entries.len();
    let open_bubble = n > 0 && entries.last() is Assistant;
    match event {
        ChatEvent::Token(text) => if open_bubble {
            &&& f.len() == n
            &&& f.subrange(0, n - 1) == entries.subrange(0, n - 1)
            &&& says(f[n - 1], shown_text(entries.last()->Assistant_0@ + text@))
        } else {
            f == entries
        },
        ChatEvent::ToolCall(name) => {
            &&& f.len() == n + 1
            &&& f.subrange(0, n as int) == entries
            &&& f[n as int] matches ChatEntry::Tool { name: fname, ok: true, note }
            &&& fname == name && note@ == seq!['\u{2026}']
        },
        ChatEvent::ToolResult { ok, note } => {
            &&& f.len() == n + 1
            &&& says(f[n as int], Seq::empty())
            &&& match last_tool(entries) {
                Some(j) => {
                    &&& f.subrange(0, n as int) == entries.update(j, f[j])
                    &&& f[j] == ChatEntry::Tool { name: entries[j]->name, ok, note }
                },
                None => f.subrange(0, n as int) == entries,
            }
        },
        ChatEvent::Done { speed, text } => match text {
            Some(t) => if open_bubble {
                f == entries.update(n - 1, ChatEntry::Assistant(t))
            } else {
                f == entries
            },
            None => f == entries,
        },
        _ => f == entries,
    }
}

impl Workspace {
    /// Forget the transcript. The model keeps nothing between turns.
    pub fn chat_clear(&mut self)
        ensures
            final(self).chat.entries@.len() == 0,
            final(self).chat.messages@.len() == 0,
            final(self).chat.last_speed is None,
            *final(self) == (Workspace {
                chat: crate::model::ChatState {
                    entries: final(self).chat.entries,
                    messages: final(self).chat.messages,
                    last_speed: None,
                    ..old(self).chat
                },
                ..*old(self)
            }),
    {
        self.chat.entries.clear();
        self.chat.messages.clear();
        self.chat.last_speed = None;
    }

    /// Stop the running turn: the job is killed, the pane stops saying
    /// it is busy. Nothing happens when no turn runs.
    pub fn chat_cancel(&mut self) -> (ops: Vec<EngineOp>)
        ensures
            !old(self).chat.job ==> *final(self) == *old(self) && ops@.len() == 0,
            old(self).chat.job ==> {
                &&& ops@ == seq![EngineOp::KillChatJob]
                &&& *final(self) == (Workspace {
                    chat: crate::model::ChatState { job: false, busy: None, ..old(self).chat },
                    status_note: Some(StatusNote::Cancelled),
                    ..*old(self)
                })
            },
    {
        let mut ops = Vec::new();
        if !self.chat.job {
            return ops;
        }
        self.chat.job = false;
        ops.push(EngineOp::KillChatJob);
        self.chat.busy = None;
        self.status_note = Some(StatusNote::Cancelled);
        ops
    }
}

impl Workspace {
    /// One event of a running turn, into the pane. A token grows the open
    /// bubble, shown without tool blocks (the raw text is kept for the
    /// next token); a tool call adds a row; its result fills in the last
    /// tool row and opens a new bubble for the model's next words.
    pub fn chat_event(&mut self, event: ChatEvent)
        ensures
            transcript_after(old(self).chat.entries@, event, final(self).chat.entries@),
            final(self).chat.busy == match event {
                ChatEvent::Loaded(d) => Some(ChatBusy::ThinkingOn(d)),
                ChatEvent::ToolCall(name) => Some(ChatBusy::Running(name)),
                ChatEvent::ToolResult { .. } => Some(ChatBusy::Thinking),
                _ => old(self).chat.busy,
            },
            final(self).chat.raw@ == match event {
                ChatEvent::Token(text) => {
                    let es = old(self).chat.entries@;
                    if es.len() > 0 && es.last() is Assistant {
                        es.last()->Assistant_0@ + text@
                    } else {
                        old(self).chat.raw@
                    }
                },
                ChatEvent::ToolResult { .. } => Seq::empty(),
                _ => old(self).chat.raw@,
            },
            final(self).chat.last_speed == match event {
                ChatEvent::Done { speed, .. } => Some(speed),
                _ => old(self).chat.last_speed,
            },
            final(self).chat.messages == match event {
                ChatEvent::Messages(m) => m,
                _ => old(self).chat.messages,
            },
            *final(self) == (Workspace {
                chat: crate::model::ChatState {
                    entries: final(self).chat.entries,
                    busy: final(self).chat.busy,
                    raw: final(self).chat.raw,
                    last_speed: final(self).chat.last_speed,
                    messages: final(self).chat.messages,
                    ..old(self).chat
                },
                ..*old(self)
            }),
    {
        let n = self.chat.entries.len();
        match event {
            ChatEvent::Loaded(device) => {
                self.chat.busy = Some(ChatBusy::ThinkingOn(device));
            },
            ChatEvent::Token(text) => {
                if n > 0 {
                    let full = match &self.chat.entries[n - 1] {
                        ChatEntry::Assistant(s) => {
                            let a = chars_of(s.as_str());
                            let b = chars_of(text.as_str());
                            Some(joined(&a, &b))
                        },
                        _ => None,
                    };
                    if let Some(full) = full {
                        let shown = visible_chars(&full);
                        let bubble = string_of(&shown);
                        let ghost before = self.chat.entries@;
                        self.chat.entries[n - 1] = ChatEntry::Assistant(bubble);
                        assert(self.chat.entries@.subrange(0, n - 1) =~= before.subrange(0, n - 1));
                        self.chat.raw = full;
                    }
                }
            },
            ChatEvent::ToolCall(name) => {
                let ghost before = self.chat.entries@;
                let mut dots: Vec<char> = Vec::new();
                dots.push('\u{2026}');
                let note = string_of(&dots);
                self.chat.busy = Some(ChatBusy::Running(name.clone()));
                self.chat.entries.push(ChatEntry::Tool { name, ok: true, note });
                assert(self.chat.entries@.subrange(0, n as int) =~= before);
            },
            ChatEvent::ToolResult { ok, note } => {
                let ghost before = self.chat.entries@;
                proof {
                    lemma_last_tool(before);
                }
                let mut j = n;
                while j > 0 && !entry_is_tool(&self.chat.entries, j - 1)
                    invariant
                        j <= n,
                        n == self.chat.entries@.len(),
                        self.chat.entries@ == before,
                        forall|m: int| j <= m < n ==> !(before[m] is Tool),
                    decreases j,
                {
                    j = j - 1;
                }
                let found = j > 0;
                if found {
                    j = j - 1;
                }
                if found {
                    let name = match &self.chat.entries[j] {
                        ChatEntry::Tool { name, .. } => name.clone(),
                        _ => String::new(),
                    };
                    self.chat.entries[j] = ChatEntry::Tool { name, ok, note };
                }
                let ghost mid = self.chat.entries@;
                self.chat.entries.push(ChatEntry::Assistant(String::new()));
                assert(self.chat.entries@.subrange(0, n as int) =~= mid);
                self.chat.raw.clear();
                self.chat.busy = Some(ChatBusy::Thinking);
            },
            ChatEvent::Done { speed, text } => {
                self.chat.last_speed = Some(speed);
                if let Some(t) = text {
                    if n > 0 {
                        let open = match &self.chat.entries[n - 1] {
                            ChatEntry::Assistant(_) => true,
                            _ => false,
                        };
                        if open {
                            self.chat.entries[n - 1] = ChatEntry::Assistant(t);
                        }
                    }
                }
            },
            ChatEvent::Messages(m) => {
                self.chat.messages = m;
            },
            ChatEvent::Other => {},
        }
    }
}


/// The hexadecimal digits `serde_json` writes, lower case.
pub open spec fn hex_digits() -> Seq<char> {
    seq!['0', '1', '2', '3', '4', '5', '6', '7', '8', '9', 'a', 'b', 'c', 'd', 'e', 'f']
}

/// How `serde_json` writes one character inside a JSON string: quote and
/// backslash behind a backslash, the five named control characters by
/// their letter, the other control characters as `\u00` and two hex
/// digits, and every other character as it is.
pub open spec fn json_char(c: char) -> Seq<char> {
    let n = c as u32;
    if c == '"' {
        seq!['\\', '"']
    } else if c == '\\' {
        seq!['\\', '\\']
    } else if n == 8 {
        seq!['\\', 'b']
    } else if n == 9 {
        seq!['\\', 't']
    } else if n == 10 {
        seq!['\\', 'n']
    } else if n == 12 {
        seq!['\\', 'f']
    } else if n == 13 {
        seq!['\\', 'r']
    } else if n < 32 {
        seq!['\\', 'u', '0', '0', hex_digits()[(n / 16) as int], hex_digits()[(n % 16) as int]]
    } else {
        seq![c]
    }
}

/// The characters of `s`, each as a JSON string writes it.
pub open spec fn json_chars(s: Seq<char>) -> Seq<char>
    decreases s.len(),
{
    if s.len() == 0 { Seq::empty() } else { json_chars(s.drop_last()) + json_char(s.last()) }
}

/// `s` as a JSON string, in quotes.
pub open spec fn json_string(s: Seq<char>) -> Seq<char> {
    seq!['"'] + json_chars(s) + seq!['"']
}

/// The entries of a JSON object, `"key":"value"` each, between commas.
pub open spec fn json_entries(pairs: Seq<(Seq<char>, Seq<char>)>) -> Seq<char>
    decreases pairs.len(),
{
    if pairs.len() == 0 {
        Seq::empty()
    } else {
        let last = json_string(pairs.last().0) + seq![':'] + json_string(pairs.last().1);
        if pairs.len() == 1 { last } else { json_entries(pairs.drop_last()) + seq![','] + last }
    }
}

/// A JSON object of text to text, as `serde_json::to_string` writes it,
/// entries in the order given.
pub open spec fn json_object(pairs: Seq<(Seq<char>, Seq<char>)>) -> Seq<char> {
    seq!['{'] + json_entries(pairs) + seq!['}']
}

/// The pairs as text.
pub open spec fn pair_texts(pairs: Seq<(String, String)>) -> Seq<(Seq<char>, Seq<char>)> {
    pairs.map_values(|p: (String, String)| (p.0@, p.1@))
}

/// Whether the keys rise strictly, in the order `str` compares them.
pub open spec fn keys_ascending(pairs: Seq<(Seq<char>, Seq<char>)>) -> bool {
    forall|i: int, j: int| 0 <= i < j < pairs.len() ==> lex_lt(#[trigger] pairs[i].0, #[trigger] pairs[j].0)
}

/// `serde_json::to_string` of the map of text to text that holds
/// `pairs`. With the keys rising, the map holds every pair and walks them
/// in the order given, and a map of text to text always serializes, so
/// the text is the JSON object of the pairs in that order.
#[verifier::external_body]
fn json_text_map(pairs: &Vec<(String, String)>) -> (r: String)
    requires
        keys_ascending(pair_texts(pairs@)),
    ensures
        r@ == json_object(pair_texts(pairs@)),
{
    let m: std::collections::BTreeMap<&str, &str> = pairs.iter().map(|p| (p.0.as_str(), p.1.as_str())).collect();
    serde_json::to_string(&m).unwrap_or_default()
}

/// The JSON of the message a user's words make: the words as its
/// content and `user` as its role.
pub open spec fn user_message_text(words: Seq<char>) -> Seq<char> {
    json_object(seq![("content"@, words), ("role"@, "user"@)])
}

/// The JSON of the message a user's words make.
pub fn user_message_json(words: &str) -> (r: String)
    ensures
        r@ == user_message_text(words@),
{
    let content = String::from_str("content");
    let role = String::from_str("role");
    let user = String::from_str("user");
    let mut pairs: Vec<(String, String)> = Vec::new();
    pairs.push((content, String::from_str(words)));
    pairs.push((role, user));
    proof {
        reveal_strlit("content");
        reveal_strlit("role");
        assert(('c' as u32) < ('r' as u32));
        assert(lex_lt("content"@, "role"@));
        assert(pair_texts(pairs@) =~= seq![("content"@, words@), ("role"@, "user"@)]);
    }
    json_text_map(&pairs)
}

/// A chat turn for the model tool: the tool, the chat model, the font
/// file the tools read, the outline engine's tool, and the active
/// master's source, where proposals land.
#[derive(Debug)]
pub struct ChatRun {
    pub binary: String,
    pub model: String,
    pub font: String,
    pub core: String,
    pub source: String,
}

/// What sending a message leads to.
#[derive(Debug)]
pub enum ChatStep {
    /// Nothing is sent; the status bar says why, when there is a why.
    Refused,
    /// Masters have unsaved edits, which the tools, reading the disk,
    /// need saved; send again once saved.
    SaveFirst,
    Started(ChatRun),
}

/// Whether `name` holds `4b`.
pub open spec fn names_4b(name: Seq<char>) -> bool {
    find(name, "4b"@) is Some
}

/// The path of the first chat model whose name holds `4b`.
pub open spec fn first_4b(found: Seq<(String, String)>) -> Option<String>
    decreases found.len(),
{
    if found.len() == 0 {
        None
    } else if names_4b(found[0].0@) {
        Some(found[0].1)
    } else {
        first_4b(found.drop_first())
    }
}

/// The chat model a scan picks: the first whose name holds `4b`, else
/// the first found.
pub open spec fn picked_model(found: Seq<(String, String)>) -> Option<String> {
    match first_4b(found) {
        Some(p) => Some(p),
        None => if found.len() > 0 { Some(found[0].1) } else { None },
    }
}

/// A tool's reply, as a tool message of the conversation carries it:
/// the tool's name and the proposal task it names, where it has them.
#[derive(Debug)]
pub struct ToolReply {
    pub name: Option<String>,
    pub task: Option<String>,
}

/// Whether a transcript row is an assistant reply with no text.
pub open spec fn empty_reply(e: ChatEntry) -> bool {
    e matches ChatEntry::Assistant(s) && s@.len() == 0
}

/// The transcript without its empty assistant replies.
pub open spec fn kept_rows(s: Seq<ChatEntry>) -> Seq<ChatEntry>
    decreases s.len(),
{
    if s.len() == 0 {
        s
    } else if empty_reply(s.last()) {
        kept_rows(s.drop_last())
    } else {
        kept_rows(s.drop_last()).push(s.last())
    }
}

/// The texts of the conversation's tool messages, in order.
pub open spec fn tool_texts(ms: Seq<ChatMessage>) -> Seq<Seq<char>>
    decreases ms.len(),
{
    if ms.len() == 0 {
        Seq::empty()
    } else {
        let m = ms.last();
        let rest = tool_texts(ms.drop_last());
        if m.role matches Some(r) && r@ == "tool"@ && m.content is Some {
            rest.push(m.content->0@)
        } else {
            rest
        }
    }
}

/// The tasks the `propose` tool named, in order.
pub open spec fn proposals(rs: Seq<ToolReply>) -> Seq<Seq<char>>
    decreases rs.len(),
{
    if rs.len() == 0 {
        Seq::empty()
    } else {
        let r = rs.last();
        let rest = proposals(rs.drop_last());
        if r.name matches Some(n) && n@ == "propose"@ && r.task is Some {
            rest.push(r.task->0@)
        } else {
            rest
        }
    }
}

/// Of the replies of a turn, the tasks the `propose` tool named, in
/// order.
pub fn proposed_tasks(replies: &Vec<ToolReply>) -> (tasks: Vec<String>)
    ensures
        tasks@.map_values(|t: String| t@) == proposals(replies@),
{
    let mut tasks: Vec<String> = Vec::new();
    let mut j: usize = 0;
    while j < replies.len()
        invariant
            j <= replies@.len(),
            tasks@.map_values(|t: String| t@) == proposals(replies@.subrange(0, j as int)),
        decreases replies@.len() - j,
    {
        let ghost pre = replies@.subrange(0, j as int);
        let ghost post = replies@.subrange(0, j as int + 1);
        assert(post.drop_last() =~= pre);
        let r = &replies[j];
        let is_propose = match &r.name {
            Some(n) => text_is(n, "propose"),
            None => false,
        };
        if is_propose {
            if let Some(t) = &r.task {
                let ghost before = tasks@;
                tasks.push(t.clone());
                assert(tasks@.map_values(|t: String| t@) =~= before.map_values(|t: String| t@).push(t@));
            }
        }
        j = j + 1;
    }
    assert(replies@.subrange(0, replies@.len() as int) =~= replies@);
    tasks
}

impl Workspace {
    /// The chat models found on disk, name and path: the pane keeps
    /// them, and, with none chosen yet, picks the first whose name holds
    /// `4b`, else the first.
    pub fn scan_chat_models(&mut self, found: Vec<(String, String)>)
        ensures
            *final(self) == (Workspace {
                chat: crate::model::ChatState {
                    installed: found,
                    scanned: true,
                    model: if old(self).chat.model is None { picked_model(found@) } else { old(self).chat.model },
                    ..old(self).chat
                },
                ..*old(self)
            }),
    {
        if self.chat.model.is_none() {
            let mut pick: Option<String> = None;
            let mut j: usize = found.len();
            while j > 0
                invariant
                    j <= found@.len(),
                    pick == first_4b(found@.subrange(j as int, found@.len() as int)),
                decreases j,
            {
                let ghost rest = found@.subrange(j as int, found@.len() as int);
                let ghost more = found@.subrange(j - 1, found@.len() as int);
                assert(more.drop_first() =~= rest);
                if find_at(&chars_of(found[j - 1].0.as_str()), &chars_of("4b"), 0).is_some() {
                    pick = Some(found[j - 1].1.clone());
                }
                j = j - 1;
            }
            assert(found@.subrange(0, found@.len() as int) =~= found@);
            if pick.is_none() && found.len() > 0 {
                pick = Some(found[0].1.clone());
            }
            self.chat.model = pick;
        }
        self.chat.installed = found;
        self.chat.scanned = true;
    }

    /// Send a message. The words are trimmed; nothing is sent for none,
    /// nor while the model answers, nor without a chat model, the model
    /// tool (`binary`) or the outline engine's tool (`core`), nor without
    /// a font; the status bar says why. Unsaved edits are saved first,
    /// unless `saved` says they just were. A turn that starts shows the
    /// words and an empty reply, keeps the message, and loads the model.
    pub fn chat_send(&mut self, text: &str, core: Option<String>, saved: bool) -> (step: ChatStep)
        requires
            old(self).refs_ok(),
        ensures
            ({
                let w = *old(self);
                let t = trim(text@);
                let refused = |n: StatusNote| step is Refused && *final(self) == (Workspace { status_note: Some(n), ..w });
                if t.len() == 0 {
                    step is Refused && *final(self) == w
                } else if w.chat.busy is Some {
                    refused(StatusNote::StillAnswering)
                } else if w.chat.model is None {
                    refused(StatusNote::NoChatModel)
                } else if w.models.binary is None {
                    refused(StatusNote::FontMlNotFound)
                } else if core is None {
                    refused(StatusNote::CoreMissing)
                } else if !saved && w.any_dirty() {
                    step is SaveFirst && *final(self) == w
                } else if w.project is None {
                    refused(StatusNote::OpenFontFirst)
                } else {
                    let p = w.project->0;
                    &&& step matches ChatStep::Started(run)
                    &&& run == (ChatRun {
                        binary: w.models.binary->0,
                        model: w.chat.model->0,
                        font: run.font,
                        core: core->0,
                        source: p.active_master().source_path,
                    })
                    &&& Some(run.font@) == w.export_source_of()
                    &&& final(self).chat.entries@.len() == w.chat.entries@.len() + 2
                    &&& final(self).chat.entries@.subrange(0, w.chat.entries@.len() as int) == w.chat.entries@
                    &&& final(self).chat.entries@[w.chat.entries@.len() as int] matches ChatEntry::User(u) && u@ == t
                    &&& final(self).chat.entries@.last() matches ChatEntry::Assistant(a) && a@.len() == 0
                    &&& final(self).chat.messages@.len() == w.chat.messages@.len() + 1
                    &&& final(self).chat.messages@.drop_last() == w.chat.messages@
                    &&& final(self).chat.messages@.last().json@ == user_message_text(t)
                    &&& final(self).chat.messages@.last().role matches Some(r) && r@ == "user"@
                    &&& final(self).chat.messages@.last().content matches Some(c) && c@ == t
                    &&& *final(self) == (Workspace {
                        chat: crate::model::ChatState {
                            entries: final(self).chat.entries,
                            messages: final(self).chat.messages,
                            busy: Some(ChatBusy::Loading),
                            job: true,
                            ..w.chat
                        },
                        ..w
                    })
                }
            }),
    {
        let t = trimmed(&chars_of(text));
        if t.len() == 0 {
            return ChatStep::Refused;
        }
        if self.chat.busy.is_some() {
            self.status_note = Some(StatusNote::StillAnswering);
            return ChatStep::Refused;
        }
        let Some(model) = self.chat.model.clone() else {
            self.status_note = Some(StatusNote::NoChatModel);
            return ChatStep::Refused;
        };
        let Some(binary) = self.models.binary.clone() else {
            self.status_note = Some(StatusNote::FontMlNotFound);
            return ChatStep::Refused;
        };
        let Some(core) = core else {
            self.status_note = Some(StatusNote::CoreMissing);
            return ChatStep::Refused;
        };
        let (save, font) = self.export_request();
        if !saved && save.len() > 0 {
            return ChatStep::SaveFirst;
        }
        let Some(p) = &self.project else {
            self.status_note = Some(StatusNote::OpenFontFirst);
            return ChatStep::Refused;
        };
        let source = p.masters[p.active].source_path.clone();
        let font = match font {
            Some(f) => f,
            None => source.clone(),
        };
        let words = string_of(&t);
        let ghost entries0 = self.chat.entries@;
        self.chat.entries.push(ChatEntry::User(words.clone()));
        self.chat.entries.push(ChatEntry::Assistant(String::new()));
        assert(self.chat.entries@.subrange(0, entries0.len() as int) =~= entries0);
        let json = user_message_json(words.as_str());
        let ghost messages0 = self.chat.messages@;
        self.chat.messages.push(ChatMessage {
            json,
            role: Some(String::from_str("user")),
            content: Some(words),
        });
        assert(self.chat.messages@.drop_last() =~= messages0);
        self.chat.busy = Some(ChatBusy::Loading);
        self.chat.job = true;
        ChatStep::Started(ChatRun { binary, model, font, core, source })
    }

    /// A turn's run ended: the pane is no longer busy and no job is
    /// going; a failure shows as an error row. Then the turn finishes
    /// (see `chat_finished`), whose texts come back.
    pub fn end_chat_turn(&mut self, failure: Option<String>) -> (texts: Vec<String>)
        ensures
            ({
                let c = old(self).chat;
                let rows = match failure {
                    Some(e) => c.entries@.push(ChatEntry::Error(e)),
                    None => c.entries@,
                };
                &&& texts@.map_values(|t: String| t@) == tool_texts(c.messages@)
                &&& final(self).chat.entries@ == kept_rows(rows)
                &&& final(self).chat.raw@.len() == 0
                &&& *final(self) == (Workspace {
                    chat: crate::model::ChatState {
                        entries: final(self).chat.entries,
                        raw: final(self).chat.raw,
                        busy: None,
                        job: false,
                        ..c
                    },
                    ..*old(self)
                })
            }),
    {
        self.chat.busy = None;
        self.chat.job = false;
        if let Some(e) = failure {
            self.chat.entries.push(ChatEntry::Error(e));
        }
        self.chat_finished()
    }

    /// A turn ended: the raw reply is dropped and so are the empty
    /// assistant rows; the texts of the tool messages come back, in
    /// order, to be read for the proposals the model made.
    pub fn chat_finished(&mut self) -> (texts: Vec<String>)
        ensures
            texts@.map_values(|t: String| t@) == tool_texts(old(self).chat.messages@),
            final(self).chat.entries@ == kept_rows(old(self).chat.entries@),
            final(self).chat.raw@.len() == 0,
            *final(self) == (Workspace {
                chat: crate::model::ChatState {
                    entries: final(self).chat.entries,
                    raw: final(self).chat.raw,
                    ..old(self).chat
                },
                ..*old(self)
            }),
    {
        self.chat.raw.clear();
        let mut rest: Vec<ChatEntry> = Vec::new();
        core::mem::swap(&mut rest, &mut self.chat.entries);
        let ghost all = rest@;
        let mut kept: Vec<ChatEntry> = Vec::new();
        while rest.len() > 0
            invariant
                rest@.len() <= all.len(),
                rest@ == all.subrange(all.len() - rest@.len(), all.len() as int),
                kept@ == kept_rows(all.subrange(0, all.len() - rest@.len())),
            decreases rest@.len(),
        {
            let ghost k = all.len() - rest@.len();
            let ghost pre = all.subrange(0, k);
            let ghost post = all.subrange(0, k + 1);
            assert(post.drop_last() =~= pre);
            assert(rest@[0] == all[k]);
            let e = rest.remove(0);
            let empty = match &e {
                ChatEntry::Assistant(s) => s.as_str().unicode_len() == 0,
                _ => false,
            };
            if !empty {
                kept.push(e);
            }
            assert(rest@ =~= all.subrange(all.len() - rest@.len(), all.len() as int));
        }
        assert(all.subrange(0, all.len() as int) =~= all);
        self.chat.entries = kept;
        let mut texts: Vec<String> = Vec::new();
        let mut j: usize = 0;
        while j < self.chat.messages.len()
            invariant
                j <= self.chat.messages@.len(),
                self.chat.messages@ == old(self).chat.messages@,
                texts@.map_values(|t: String| t@) == tool_texts(self.chat.messages@.subrange(0, j as int)),
            decreases self.chat.messages@.len() - j,
        {
            let ghost pre = self.chat.messages@.subrange(0, j as int);
            let ghost post = self.chat.messages@.subrange(0, j as int + 1);
            assert(post.drop_last() =~= pre);
            let m = &self.chat.messages[j];
            let is_tool = match &m.role {
                Some(r) => text_is(r, "tool"),
                None => false,
            };
            if is_tool {
                if let Some(c) = &m.content {
                    let ghost before = texts@;
                    texts.push(c.clone());
                    assert(texts@.map_values(|t: String| t@) =~= before.map_values(|t: String| t@).push(c@));
                }
            }
            j = j + 1;
        }
        assert(self.chat.messages@.subrange(0, self.chat.messages@.len() as int) =~= self.chat.messages@);
        texts
    }

    /// The proposals of a turn were adopted from disk, these failing as
    /// said: the last failure shows, and the proposal list is read again.
    pub fn finish_chat_proposals(&mut self, failures: Vec<String>) -> (ops: Vec<EngineOp>)
        ensures
            ops@ == seq![EngineOp::RefreshProposals],
            failures@.len() == 0 ==> *final(self) == *old(self),
            failures@.len() > 0 ==> *final(self) == (Workspace {
                status_note: Some(StatusNote::Text(failures@.last())),
                ..*old(self)
            }),
    {
        let mut failures = failures;
        if let Some(e) = failures.pop() {
            self.status_note = Some(StatusNote::Text(e));
        }
        let mut ops = Vec::new();
        ops.push(EngineOp::RefreshProposals);
        ops
    }
}


/// What a tool returned, as far as its note reads it. Fields the reply
/// lacks hold their empty value; the advance comes as the tool's number
/// already written out.
#[derive(Debug)]
pub struct ToolOutput {
    pub error: Option<String>,
    pub family: String,
    pub style: String,
    /// The font's glyph count.
    pub glyph_total: u64,
    pub glyph: String,
    pub advance: String,
    pub contours: usize,
    /// The glyphs of the proposal made, when one was.
    pub proposal: Option<usize>,
    /// The glyphs proofed.
    pub proofed: usize,
    pub passages: usize,
}

/// The one line the chat pane shows for what the tool `name` returned:
/// the error when there is one, else a summary that depends on the tool.
pub open spec fn tool_note(name: Seq<char>, r: ToolOutput) -> Seq<char> {
    match r.error {
        Some(e) => e@,
        None => if name == "font_info"@ {
            r.family@ + " "@ + r.style@ + ", "@ + dec(r.glyph_total as nat) + " glyphs"@
        } else if name == "read_glyph"@ {
            r.glyph@ + ": advance "@ + r.advance@ + ", "@ + dec(r.contours as nat) + " contours"@
        } else if name == "propose"@ {
            match r.proposal {
                Some(k) => "proposed "@ + dec(k as nat) + " glyphs, install or discard below"@,
                None => "ran, no proposal written"@,
            }
        } else if name == "proof"@ {
            dec(r.proofed as nat) + " glyphs proofed"@
        } else if name == "docs"@ {
            dec(r.passages as nat) + " passages"@
        } else {
            "done"@
        },
    }
}

fn add_text(v: &mut Vec<char>, s: &str)
    ensures
        final(v)@ == old(v)@ + s@,
{
    let r = joined(v, &chars_of(s));
    *v = r;
}

fn add_count(v: &mut Vec<char>, n: u64)
    ensures
        final(v)@ == old(v)@ + dec(n as nat),
{
    let r = joined(v, &decimal(n as u128));
    *v = r;
}

/// The line the chat pane shows for what the tool `name` returned.
pub fn tool_result_note(name: &String, r: &ToolOutput) -> (s: String)
    ensures
        s@ == tool_note(name@, *r),
{
    if let Some(e) = &r.error {
        return e.clone();
    }
    let mut v: Vec<char> = Vec::new();
    if text_is(name, "font_info") {
        add_text(&mut v, r.family.as_str());
        add_text(&mut v, " ");
        add_text(&mut v, r.style.as_str());
        add_text(&mut v, ", ");
        add_count(&mut v, r.glyph_total);
        add_text(&mut v, " glyphs");
    } else if text_is(name, "read_glyph") {
        add_text(&mut v, r.glyph.as_str());
        add_text(&mut v, ": advance ");
        add_text(&mut v, r.advance.as_str());
        add_text(&mut v, ", ");
        add_count(&mut v, r.contours as u64);
        add_text(&mut v, " contours");
    } else if text_is(name, "propose") {
        match r.proposal {
            Some(k) => {
                add_text(&mut v, "proposed ");
                add_count(&mut v, k as u64);
                add_text(&mut v, " glyphs, install or discard below");
            },
            None => add_text(&mut v, "ran, no proposal written"),
        }
    } else if text_is(name, "proof") {
        add_count(&mut v, r.proofed as u64);
        add_text(&mut v, " glyphs proofed");
    } else if text_is(name, "docs") {
        add_count(&mut v, r.passages as u64);
        add_text(&mut v, " passages");
    } else {
        add_text(&mut v, "done");
    }
    string_of(&v)
}


/// How a chat turn's run ended: nothing to report when it succeeded;
/// `cancelled` when it was stopped (no exit code); else the last line of
/// its error stream, or that the chat failed when it wrote none.
pub open spec fn chat_end_of(success: bool, exited: bool, stderr: Seq<Seq<char>>) -> Option<Seq<char>> {
    if success {
        None
    } else if !exited {
        Some("cancelled"@)
    } else if stderr.len() > 0 {
        Some(stderr.last())
    } else {
        Some("font-ml chat failed"@)
    }
}

/// How a chat turn's run ended; see `chat_end_of`.
pub fn chat_end(success: bool, exited: bool, stderr: &Vec<String>) -> (r: Option<String>)
    ensures
        match r {
            Some(t) => chat_end_of(success, exited, crate::names::texts(stderr@)) == Some(t@),
            None => chat_end_of(success, exited, crate::names::texts(stderr@)) is None,
        },
{
    if success {
        None
    } else if !exited {
        Some(String::from_str("cancelled"))
    } else if stderr.len() > 0 {
        Some(stderr[stderr.len() - 1].clone())
    } else {
        Some(String::from_str("font-ml chat failed"))
    }
}

} // verus!
