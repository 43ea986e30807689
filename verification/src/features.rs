//! The features section, and the sample text around the open glyph.
use vstd::prelude::*;
use crate::model::{EngineOp, Master, Mode, Sort, StatusNote, TextBuffer, Workspace};
use crate::steps::{rotate, rotated};
use crate::text::{chars_of, find, find_at, slice, string_of, trim, trimmed};

verus! {

/// A line as `str::lines` gives it: a `\r` before the line break goes.
pub open spec fn strip_cr(l: Seq<char>) -> Seq<char> {
    if l.len() > 0 && l.last() == '\r' { l.drop_last() } else { l }
}

/// The first line of `s` holding more than white space.
pub open spec fn first_line_with_text(s: Seq<char>) -> Option<Seq<char>>
    decreases s.len(),
{
    if s.len() == 0 {
        None
    } else {
        match find(s, seq!['\n']) {
            Some(i) => {
                proof { crate::chat::lemma_find_from_zero(s, seq!['\n']); }
                let line = strip_cr(s.subrange(0, i));
                if trim(line).len() > 0 {
                    Some(line)
                } else {
                    first_line_with_text(s.subrange(i + 1, s.len() as int))
                }
            },
            None => if trim(s).len() > 0 { Some(s) } else { None },
        }
    }
}

fn first_text_line(s: &Vec<char>) -> (r: Option<Vec<char>>)
    ensures
        r matches Some(l) ==> first_line_with_text(s@) == Some(l@),
        r is None ==> first_line_with_text(s@) is None,
    decreases s@.len(),
{
    if s.len() == 0 {
        return None;
    }
    let mut nl = Vec::new();
    nl.push('\n');
    assert(nl@ =~= seq!['\n']);
    proof { crate::chat::lemma_find_from_zero(s@, nl@); }
    match find_at(s, &nl, 0) {
        Some(i) => {
            let mut line = slice(s, 0, i);
            if line.len() > 0 && line[line.len() - 1] == '\r' {
                line = slice(&line, 0, line.len() - 1);
                assert(line@ =~= s@.subrange(0, i as int).drop_last());
            }
            if trimmed(&line).len() > 0 {
                Some(line)
            } else {
                let rest = slice(s, i + 1, s.len());
                first_text_line(&rest)
            }
        },
        None => {
            if trimmed(s).len() > 0 {
                Some(slice(s, 0, s.len()))
            } else {
                None
            }
        },
    }
}

/// The glyph `name` followed by the characters `chars`.
fn sample_sorts(name: &String, text: &str) -> (sorts: Vec<Sort>)
    ensures
        sorts@.len() == text@.len() + 1,
        sorts@[0] == Sort::Glyph(*name),
        forall|i: int| 0 <= i < text@.len() ==> sorts@[i + 1] == Sort::Letter(text@[i]),
{
    let n = text.unicode_len();
    let mut out: Vec<Sort> = Vec::new();
    out.push(Sort::Glyph(name.clone()));
    let mut j: usize = 0;
    while j < n
        invariant
            n == text@.len(),
            j <= n,
            out@.len() == j + 1,
            out@[0] == Sort::Glyph(*name),
            forall|i: int| 0 <= i < j ==> out@[i + 1] == Sort::Letter(text@[i]),
        decreases n - j,
    {
        out.push(Sort::Letter(text.get_char(j)));
        j += 1;
    }
    out
}

/// What the features section says after Apply: the compiler's verdict.
pub open spec fn apply_note(verdict: Option<Result<(), String>>, note: StatusNote) -> bool {
    match verdict {
        Some(Ok(())) => note == StatusNote::CompiledClean,
        Some(Err(e)) => note matches StatusNote::SavedNotCompiling(l) && l@ == match first_line_with_text(e@) {
            Some(line) => line,
            None => "error"@,
        },
        None => note == StatusNote::Applied,
    }
}

impl Workspace {
    /// The features section's Generate button: `tags` are the feature
    /// blocks the engine can write from the glyph names. With none, the
    /// section says so; otherwise the engine rewrites them into the
    /// editor text to look over.
    pub fn command_generate_features(&mut self, tags: Vec<String>) -> (ops: Vec<EngineOp>)
        ensures
            !old(self).has_font() ==> *final(self) == *old(self) && ops@.len() == 0,
            old(self).has_font() && tags@.len() == 0 ==> ops@.len() == 0
                && *final(self) == (Workspace { features_status: Some(StatusNote::NothingToGenerate), ..*old(self) }),
            old(self).has_font() && tags@.len() > 0 ==> ops@ == seq![EngineOp::GenerateFeatures]
                && *final(self) == (Workspace {
                    features_edited: true,
                    features_status: Some(StatusNote::GeneratedFeatures(tags)),
                    ..*old(self)
                }),
    {
        let mut ops = Vec::new();
        if !self.font_open() {
            return ops;
        }
        if tags.len() == 0 {
            self.features_status = Some(StatusNote::NothingToGenerate);
            return ops;
        }
        ops.push(EngineOp::GenerateFeatures);
        self.features_edited = true;
        self.features_status = Some(StatusNote::GeneratedFeatures(tags));
        ops
    }

    /// Apply the features text to the active master, given the
    /// compiler's verdict on it. A text that does not compile is still
    /// kept; the section shows the first line of the complaint.
    pub fn command_apply_features(&mut self, fea: String, verdict: Option<Result<(), String>>) -> (ops: Vec<EngineOp>)
        ensures
            !old(self).has_font() ==> *final(self) == *old(self) && ops@.len() == 0,
            old(self).has_font() ==> {
                let p = old(self).project->0;
                let m = p.active_master();
                &&& ops@ == seq![EngineOp::ApplyFeatures, EngineOp::RebuildTextModels]
                &&& final(self).project matches Some(fp)
                &&& crate::project::master_replaced(p, p.active as int, fp, fp.masters@[p.active as int])
                &&& fp.masters@[p.active as int] == if m.features@ == fea@ {
                    m
                } else {
                    Master { features: fea, dirty: true, ..m }
                }
                &&& final(self).features_status matches Some(note) && apply_note(verdict, note)
                &&& *final(self) == (Workspace {
                    project: final(self).project,
                    features_edited: false,
                    features_status: final(self).features_status,
                    ..*old(self)
                })
            },
    {
        let mut ops = Vec::new();
        match &mut self.project {
            None => {
                return ops;
            },
            Some(p) => {
                if p.active >= p.masters.len() {
                    return ops;
                }
                let a = p.active;
                let ghost before = p.masters@;
                if p.masters[a].features != fea {
                    p.masters[a].features = fea;
                    p.masters[a].dirty = true;
                }
                assert(p.masters@ =~= before.update(a as int, p.masters@[a as int]));
            },
        }
        self.features_edited = false;
        self.features_status = Some(match verdict {
            Some(Ok(())) => StatusNote::CompiledClean,
            Some(Err(e)) => {
                let line = match first_text_line(&chars_of(e.as_str())) {
                    Some(l) => string_of(&l),
                    None => String::from_str("error"),
                };
                StatusNote::SavedNotCompiling(line)
            },
            None => StatusNote::Applied,
        });
        ops.push(EngineOp::ApplyFeatures);
        ops.push(EngineOp::RebuildTextModels);
        ops
    }

    /// Whether `b` is the text strip of a sample: the glyph named `name`
    /// first, then the sample's characters, the glyph active.
    pub open spec fn sample_strip(name: Seq<char>, sample: Seq<char>, b: TextBuffer) -> bool {
        &&& b.sorts@.len() == sample.len() + 1
        &&& b.sorts@[0] matches Sort::Glyph(g) && g@ == name
        &&& forall|j: int| 0 <= j < sample.len() ==> b.sorts@[j + 1] == Sort::Letter(sample[j])
        &&& b.active == Some(0usize)
    }

    /// View > Next/Previous Sample String: step through the sample
    /// strings and set the text strip to the open glyph followed by the
    /// sample.
    pub fn command_sample_string(&mut self, step: isize) -> (ops: Vec<EngineOp>)
        requires
            old(self).refs_ok(),
            old(self).mode is Editor && old(self).has_font() ==> old(self).sample_strings@.len() > 0,
        ensures
            !(old(self).mode is Editor && old(self).has_font()) ==> *final(self) == *old(self) && ops@.len() == 0,
            (old(self).mode is Editor && old(self).has_font()) ==> {
                let k = rotated(old(self).sample_index as int, old(self).sample_strings@.len() as int, step as int);
                let sample = old(self).sample_strings@[k];
                let name = old(self).project->0.active_master().glyphs@[old(self).mode->0 as int].name;
                &&& ops@ == seq![EngineOp::SyncSortOffset]
                &&& Self::sample_strip(name@, sample@, final(self).edit_buffer)
                &&& *final(self) == (Workspace {
                    sample_index: k as usize,
                    edit_buffer: final(self).edit_buffer,
                    status_note: Some(StatusNote::Sample(sample)),
                    ..*old(self)
                })
            },
    {
        let mut ops = Vec::new();
        let Mode::Editor(index) = self.mode else {
            return ops;
        };
        let name = match &self.project {
            Some(p) => {
                if p.active >= p.masters.len() {
                    return ops;
                }
                p.masters[p.active].glyphs[index].name.clone()
            },
            None => {
                return ops;
            },
        };
        let k = rotate(self.sample_index, self.sample_strings.len(), step);
        self.sample_index = k;
        let sample = self.sample_strings[k].clone();
        let sorts = sample_sorts(&name, sample.as_str());
        self.edit_buffer = TextBuffer { sorts, active: Some(0) };
        ops.push(EngineOp::SyncSortOffset);
        self.status_note = Some(StatusNote::Sample(sample));
        ops
    }
}

} // verus!
