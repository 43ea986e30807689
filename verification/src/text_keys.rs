//! Keys typed into the editor's text strip while the Text tool is in
//! hand: which edit of the strip each asks for.
use vstd::prelude::*;
use crate::model::{EngineOp, Workspace};
use crate::text::chars_of;

verus! {

/// An edit of the text strip at its cursor.
#[derive(PartialEq, Eq, Debug)]
pub enum TextEdit {
    DeleteBefore,
    DeleteAfter,
    Left,
    Right,
    /// A line up; the strip says whether the cursor moved.
    Up,
    /// A line down; the strip says whether the cursor moved.
    Down,
    Home,
    End,
    LineBreak,
    /// Type these characters; the strip says whether any went in.
    Insert(Vec<char>),
}

/// Whether `c` is a control character: the general category `Cc`, as
/// `char::is_control` reads it.
pub open spec fn is_control(c: char) -> bool {
    (c as u32) <= 0x1f || (0x7f <= (c as u32) && (c as u32) <= 0x9f)
}

/// `s` without its control characters.
pub open spec fn printable(s: Seq<char>) -> Seq<char>
    decreases s.len(),
{
    if s.len() == 0 {
        s
    } else if is_control(s.last()) {
        printable(s.drop_last())
    } else {
        printable(s.drop_last()).push(s.last())
    }
}

/// The edit a key named `key` asks of the strip, with `typed` the text
/// the key types, when it types any; `None` for a key that asks for none.
pub open spec fn text_edit_of(key: Seq<char>, typed: Option<Seq<char>>) -> Option<TextEdit> {
    if key == "backspace"@ {
        Some(TextEdit::DeleteBefore)
    } else if key == "delete"@ {
        Some(TextEdit::DeleteAfter)
    } else if key == "left"@ {
        Some(TextEdit::Left)
    } else if key == "right"@ {
        Some(TextEdit::Right)
    } else if key == "up"@ {
        Some(TextEdit::Up)
    } else if key == "down"@ {
        Some(TextEdit::Down)
    } else if key == "home"@ {
        Some(TextEdit::Home)
    } else if key == "end"@ {
        Some(TextEdit::End)
    } else if key == "enter"@ {
        Some(TextEdit::LineBreak)
    } else {
        None
    }
}

fn is_key(key: &str, word: &str) -> (r: bool)
    ensures
        r == (key@ == word@),
{
    crate::tasks::same_chars(&chars_of(key), &chars_of(word))
}

fn printable_chars(s: &str) -> (r: Vec<char>)
    ensures
        r@ == printable(s@),
{
    let c = chars_of(s);
    let mut r: Vec<char> = Vec::new();
    let mut j: usize = 0;
    while j < c.len()
        invariant
            j <= c@.len(),
            c@ == s@,
            r@ == printable(c@.subrange(0, j as int)),
        decreases c@.len() - j,
    {
        assert(c@.subrange(0, j as int + 1).drop_last() =~= c@.subrange(0, j as int));
        let u = c[j] as u32;
        if !(u <= 0x1f || (0x7f <= u && u <= 0x9f)) {
            r.push(c[j]);
        }
        j = j + 1;
    }
    assert(c@.subrange(0, c@.len() as int) =~= c@);
    r
}

impl Workspace {
    /// Whether `taken` and `ops` are what the key named `key`, typing
    /// `typed`, does in the text strip.
    pub open spec fn text_key_done(&self, key: Seq<char>, typed: Option<Seq<char>>, taken: bool,
        ops: Seq<EngineOp>) -> bool {
        &&& !self.has_font() ==> !taken && ops.len() == 0
        &&& self.has_font() ==> taken && ops == match text_edit_of(key, typed) {
                Some(TextEdit::Up) => seq![EngineOp::TextKey(TextEdit::Up)],
                Some(TextEdit::Down) => seq![EngineOp::TextKey(TextEdit::Down)],
                Some(e) => seq![EngineOp::TextKey(e), EngineOp::SyncSortOffset],
                None => if key == "escape"@ {
                    seq![EngineOp::SyncSortOffset]
                } else {
                    match typed {
                        Some(t) => if printable(t).len() > 0 {
                            seq![EngineOp::TextKey(TextEdit::Insert(ops[0]->TextKey_0->Insert_0))]
                        } else {
                            Seq::empty()
                        },
                        None => Seq::empty(),
                    }
                },
            }
        &&& self.has_font() && text_edit_of(key, None) is None && !(key == "escape"@) && typed is Some
                && printable(typed->0).len() > 0 ==> ops[0]->TextKey_0->Insert_0@ == printable(typed->0)
    }

    /// A key pressed in the text strip, named `key`, typing `typed` when
    /// it types text. Without a font the key is not taken. Otherwise it
    /// is: the named keys edit the strip, and the strip is laid out
    /// again, or, for up and down, once it says the cursor moved; Escape
    /// keeps the Text tool and lays the strip out again; any other key
    /// types its printable characters, and the strip is laid out again
    /// once it says one went in. A key that types nothing asks nothing.
    pub fn handle_edit_text_key(&self, key: &str, typed: Option<String>) -> (r: (bool, Vec<EngineOp>))
        ensures
            self.text_key_done(key@, match typed { Some(t) => Some(t@), None => None }, r.0, r.1@),
    {
        let mut ops = Vec::new();
        if !self.font_open() {
            return (false, ops);
        }
        let edit = if is_key(key, "backspace") {
            Some(TextEdit::DeleteBefore)
        } else if is_key(key, "delete") {
            Some(TextEdit::DeleteAfter)
        } else if is_key(key, "left") {
            Some(TextEdit::Left)
        } else if is_key(key, "right") {
            Some(TextEdit::Right)
        } else if is_key(key, "up") {
            Some(TextEdit::Up)
        } else if is_key(key, "down") {
            Some(TextEdit::Down)
        } else if is_key(key, "home") {
            Some(TextEdit::Home)
        } else if is_key(key, "end") {
            Some(TextEdit::End)
        } else if is_key(key, "enter") {
            Some(TextEdit::LineBreak)
        } else {
            None
        };
        match edit {
            Some(TextEdit::Up) => ops.push(EngineOp::TextKey(TextEdit::Up)),
            Some(TextEdit::Down) => ops.push(EngineOp::TextKey(TextEdit::Down)),
            Some(e) => {
                ops.push(EngineOp::TextKey(e));
                ops.push(EngineOp::SyncSortOffset);
            },
            None => {
                if is_key(key, "escape") {
                    ops.push(EngineOp::SyncSortOffset);
                } else if let Some(t) = typed {
                    let chars = printable_chars(t.as_str());
                    if chars.len() > 0 {
                        ops.push(EngineOp::TextKey(TextEdit::Insert(chars)));
                    }
                }
            },
        }
        proof {
            if ops@.len() == 0 {
                assert(ops@ =~= Seq::<EngineOp>::empty());
            } else if ops@.len() == 1 {
                assert(ops@ =~= seq![ops@[0]]);
            } else {
                assert(ops@ =~= seq![ops@[0], ops@[1]]);
            }
        }
        (true, ops)
    }
}

} // verus!
