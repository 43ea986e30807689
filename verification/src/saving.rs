//! Saving: which masters and files a save writes, what it says when it
//! is done, the file names Save As gives, and a new font.
use vstd::prelude::*;
use crate::model::{EngineOp, Master, Mode, Project, StatusNote, Workspace};
use crate::nodes::{file_name_of, path_file_name};
use crate::text::{chars_of, joined, string_of};

verus! {

/// Whether `c` is one of the date and time fields the stamps use:
/// month abbreviation, day, 24-hour and 12-hour hour, minute, AM/PM.
pub open spec fn time_field(c: char) -> bool {
    c == 'b' || c == 'd' || c == 'H' || c == 'I' || c == 'M' || c == 'p'
}

/// Whether `c` is one of those fields that chrono writes as a number:
/// day, 24-hour and 12-hour hour, minute. Only these take a padding flag.
pub open spec fn time_field_numeric(c: char) -> bool {
    c == 'd' || c == 'H' || c == 'I' || c == 'M'
}

/// Whether every `%` of `f` introduces one of those fields, the numeric
/// ones with or without the `-` that drops padding.
pub open spec fn time_format_ok(f: Seq<char>) -> bool
    decreases f.len(),
{
    if f.len() == 0 {
        true
    } else if f[0] != '%' {
        time_format_ok(f.drop_first())
    } else if f.len() >= 2 && time_field(f[1]) {
        time_format_ok(f.subrange(2, f.len() as int))
    } else if f.len() >= 3 && f[1] == '-' && time_field_numeric(f[2]) {
        time_format_ok(f.subrange(3, f.len() as int))
    } else {
        false
    }
}

/// The local date and time, as `chrono::Local::now().format(format)`
/// writes it. What it returns depends on the clock, so nothing is stated
/// of it; the format is kept to fields chrono's `strftime` reads without
/// error, since a format it cannot read would make the text panic.
#[verifier::external_body]
pub(crate) fn local_time_text(format: &str) -> String
    requires
        time_format_ok(format@),
{
    chrono::Local::now().format(format).to_string()
}

/// The format of the time the title bar shows for the last save.
pub fn save_time_format() -> (f: &'static str)
    ensures
        f@ == "%-I:%M %p"@,
        time_format_ok(f@),
{
    let f = "%-I:%M %p";
    proof {
        reveal_strlit("%-I:%M %p");
        reveal_with_fuel(time_format_ok, 14);
    }
    f
}

/// Where the last dot of `s` stands, -1 when it has none.
pub open spec fn last_dot(s: Seq<char>) -> int
    decreases s.len(),
{
    if s.len() == 0 {
        -1
    } else if s.last() == '.' {
        s.len() - 1
    } else {
        last_dot(s.drop_last())
    }
}

/// The extension of a file name, as `std::path::Path::extension` reads
/// it: what follows the last dot, unless that dot is the first
/// character or there is none.
pub open spec fn extension_of(name: Seq<char>) -> Option<Seq<char>> {
    if last_dot(name) >= 1 {
        Some(name.subrange(last_dot(name) + 1, name.len() as int))
    } else {
        None
    }
}

pub(crate) proof fn lemma_last_dot(s: Seq<char>)
    ensures
        -1 <= last_dot(s) < s.len(),
        last_dot(s) >= 0 ==> s[last_dot(s)] == '.',
        forall|k: int| last_dot(s) < k < s.len() ==> s[k] != '.',
    decreases s.len(),
{
    if s.len() > 0 && s.last() != '.' {
        lemma_last_dot(s.drop_last());
        assert forall|k: int| last_dot(s) < k < s.len() implies s[k] != '.' by {
            if k < s.len() - 1 {
                assert(s[k] == s.drop_last()[k]);
            }
        }
    }
}

/// Whether the path names a `.designspace` file.
pub open spec fn is_designspace_path(path: Seq<char>) -> bool {
    file_name_of(path) matches Some(n) && extension_of(n) == Some("designspace"@)
}

fn names_designspace(path: &str) -> (r: bool)
    ensures
        r == is_designspace_path(path@),
{
    let Some(name) = path_file_name(path) else {
        return false;
    };
    let s = chars_of(name.as_str());
    let mut k: usize = s.len();
    while k > 0 && s[k - 1] != '.'
        invariant
            k <= s@.len(),
            forall|j: int| k <= j < s@.len() ==> s@[j] != '.',
        decreases k,
    {
        k = k - 1;
    }
    proof {
        lemma_last_dot(s@);
        if k > 0 {
            assert(last_dot(s@) == k - 1) by {
                if last_dot(s@) > k - 1 {
                    assert(s@[last_dot(s@)] == '.');
                }
                if last_dot(s@) < k - 1 {
                    assert(s@[k - 1] == '.');
                }
            }
        } else {
            assert(last_dot(s@) == -1) by {
                if last_dot(s@) >= 0 {
                    assert(s@[last_dot(s@)] == '.');
                }
            }
        }
    }
    if k < 2 {
        return false;
    }
    let ext = crate::text::slice(&s, k, s.len());
    let want = chars_of("designspace");
    crate::tasks::same_chars(&ext, &want)
}

/// The file name Save As gives a master: `<family>-<style>.ufo`, with
/// the spaces taken out, `Untitled` and `Regular` standing in for names
/// the font does not have.
pub open spec fn save_as_name(m: Master) -> Seq<char> {
    let family = match m.family_name { Some(f) => f@, None => "Untitled"@ };
    let style = match m.style_name { Some(s) => s@, None => "Regular"@ };
    without_spaces(family) + "-"@ + without_spaces(style) + ".ufo"@
}

/// `s` with every space taken out.
pub open spec fn without_spaces(s: Seq<char>) -> Seq<char>
    decreases s.len(),
{
    if s.len() == 0 {
        s
    } else if s.last() == ' ' {
        without_spaces(s.drop_last())
    } else {
        without_spaces(s.drop_last()).push(s.last())
    }
}

fn strip_spaces(s: &str) -> (r: Vec<char>)
    ensures
        r@ == without_spaces(s@),
{
    let c = chars_of(s);
    let mut r: Vec<char> = Vec::new();
    let mut j: usize = 0;
    while j < c.len()
        invariant
            j <= c@.len(),
            c@ == s@,
            r@ == without_spaces(c@.subrange(0, j as int)),
        decreases c@.len() - j,
    {
        assert(c@.subrange(0, j as int + 1).drop_last() =~= c@.subrange(0, j as int));
        if c[j] != ' ' {
            r.push(c[j]);
        }
        j = j + 1;
    }
    assert(c@.subrange(0, c@.len() as int) =~= c@);
    r
}

/// The file name Save As gives `m`.
pub fn file_name_for(m: &Master) -> (r: String)
    ensures
        r@ == save_as_name(*m),
{
    let family = match &m.family_name {
        Some(f) => strip_spaces(f.as_str()),
        None => strip_spaces("Untitled"),
    };
    let style = match &m.style_name {
        Some(s) => strip_spaces(s.as_str()),
        None => strip_spaces("Regular"),
    };
    let a = joined(&family, &chars_of("-"));
    let b = joined(&a, &style);
    let c = joined(&b, &chars_of(".ufo"));
    string_of(&c)
}

/// The masters a save writes: the dirty ones, in order.
pub open spec fn dirty_masters(ms: Seq<Master>) -> Seq<usize>
    decreases ms.len(),
{
    if ms.len() == 0 {
        Seq::empty()
    } else if ms.last().dirty {
        dirty_masters(ms.drop_last()).push((ms.len() - 1) as usize)
    } else {
        dirty_masters(ms.drop_last())
    }
}

/// The paths a save wrote, in the order of its outcomes.
pub open spec fn saved_paths(ms: Seq<Master>, outs: Seq<(usize, Result<(), String>)>) -> Seq<Seq<char>>
    decreases outs.len(),
{
    if outs.len() == 0 {
        Seq::empty()
    } else {
        let rest = saved_paths(ms, outs.drop_last());
        if outs.last().1 is Ok {
            rest.push(ms[outs.last().0 as int].source_path@)
        } else {
            rest
        }
    }
}

/// What the failed writes of a save said, in order.
pub open spec fn save_failures(outs: Seq<(usize, Result<(), String>)>) -> Seq<Seq<char>>
    decreases outs.len(),
{
    if outs.len() == 0 {
        Seq::empty()
    } else {
        let rest = save_failures(outs.drop_last());
        match outs.last().1 {
            Err(e) => rest.push(e@),
            Ok(_) => rest,
        }
    }
}

/// Whether master `k` was written.
pub open spec fn written(outs: Seq<(usize, Result<(), String>)>, k: int) -> bool {
    exists|j: int| 0 <= j < outs.len() && #[trigger] outs[j].0 == k && outs[j].1 is Ok
}

/// A master once written: clean, with no glyph waiting to be saved.
pub open spec fn clean(m: Master, f: Master) -> bool {
    f == (Master { dirty: false, modified_glyphs: f.modified_glyphs, ..m }) && f.modified_glyphs@.len() == 0
}

/// What the status bar says after a save.
pub open spec fn save_note(saved: Seq<Seq<char>>, failed: Seq<Seq<char>>, note: StatusNote) -> bool {
    if failed.len() > 0 {
        note matches StatusNote::SaveFailed(v) && v@.map_values(|s: String| s@) == failed
    } else if saved.len() == 0 {
        note == StatusNote::NothingToSave
    } else {
        note matches StatusNote::Saved(v) && v@.map_values(|s: String| s@) == saved
    }
}

impl Workspace {
    /// The masters a save writes: the dirty ones, in order. None without
    /// a font.
    pub fn masters_to_save(&self) -> (r: Vec<usize>)
        ensures
            r@ == match self.project {
                Some(p) => dirty_masters(p.masters@),
                None => Seq::empty(),
            },
    {
        let mut r: Vec<usize> = Vec::new();
        let Some(p) = &self.project else {
            return r;
        };
        let mut k: usize = 0;
        while k < p.masters.len()
            invariant
                k <= p.masters@.len(),
                r@ == dirty_masters(p.masters@.subrange(0, k as int)),
            decreases p.masters@.len() - k,
        {
            assert(p.masters@.subrange(0, k as int + 1).drop_last() =~= p.masters@.subrange(0, k as int));
            if p.masters[k].dirty {
                r.push(k);
            }
            k = k + 1;
        }
        assert(p.masters@.subrange(0, p.masters@.len() as int) =~= p.masters@);
        r
    }

    /// The designspace file a save writes, when instance edits wait in
    /// it and the export source is a `.designspace` file.
    pub fn designspace_to_save(&self) -> (r: Option<String>)
        ensures
            r == match self.project {
                Some(p) => if p.ds_dirty && p.designspace is Some && (p.export_source matches Some(s)
                    && is_designspace_path(s@)) {
                    p.export_source
                } else {
                    None
                },
                None => None,
            },
    {
        let Some(p) = &self.project else {
            return None;
        };
        if !p.ds_dirty || p.designspace.is_none() {
            return None;
        }
        match &p.export_source {
            Some(s) => if names_designspace(s.as_str()) { Some(s.clone()) } else { None },
            None => None,
        }
    }

    /// A save, once the files were written or not: each master written
    /// is clean, a designspace written has no edits waiting, the save
    /// time is noted, and the status bar lists the failures, or says
    /// nothing needed saving, or lists what was saved (the designspace
    /// last). Without a font nothing happens.
    pub fn finish_save(&mut self, masters: Vec<(usize, Result<(), String>)>, designspace: Option<Result<(), String>>)
        requires
            old(self).project matches Some(p) ==> forall|j: int| 0 <= j < masters@.len()
                ==> #[trigger] masters@[j].0 < p.masters@.len(),
        ensures
            old(self).project is None ==> *final(self) == *old(self),
            old(self).project matches Some(p) ==> {
                let ds_saved = designspace matches Some(Ok(_)) && p.export_source is Some;
                let saved = saved_paths(p.masters@, masters@)
                    + if ds_saved { seq![p.export_source->0@] } else { Seq::empty() };
                let failed = save_failures(masters@)
                    + match designspace { Some(Err(e)) => seq![e@], _ => Seq::empty() };
                &&& final(self).project matches Some(fp)
                &&& fp.masters@.len() == p.masters@.len()
                &&& forall|k: int| 0 <= k < p.masters@.len() ==> if written(masters@, k) {
                    clean(p.masters@[k], #[trigger] fp.masters@[k])
                } else {
                    fp.masters@[k] == p.masters@[k]
                }
                &&& fp == (Project {
                    masters: fp.masters,
                    ds_dirty: if designspace matches Some(Ok(_)) { false } else { p.ds_dirty },
                    ..p
                })
                &&& final(self).last_save_label is Some
                &&& final(self).status_note matches Some(note) && save_note(saved, failed, note)
                &&& *final(self) == (Workspace {
                    project: final(self).project,
                    last_save_label: final(self).last_save_label,
                    status_note: final(self).status_note,
                    ..*old(self)
                })
            },
    {
        let Some(mut p) = self.project.take() else {
            return;
        };
        let ghost p0 = p;
        let mut saved: Vec<String> = Vec::new();
        let mut failed: Vec<String> = Vec::new();
        let mut j: usize = 0;
        while j < masters.len()
            invariant
                j <= masters@.len(),
                forall|i: int| 0 <= i < masters@.len() ==> #[trigger] masters@[i].0 < p0.masters@.len(),
                p.masters@.len() == p0.masters@.len(),
                p == (Project { masters: p.masters, ..p0 }),
                forall|k: int| 0 <= k < p0.masters@.len() ==> if written(masters@.subrange(0, j as int), k) {
                    clean(p0.masters@[k], #[trigger] p.masters@[k])
                } else {
                    p.masters@[k] == p0.masters@[k]
                },
                saved@.map_values(|s: String| s@) == saved_paths(p0.masters@, masters@.subrange(0, j as int)),
                failed@.map_values(|s: String| s@) == save_failures(masters@.subrange(0, j as int)),
            decreases masters@.len() - j,
        {
            let ghost pre = masters@.subrange(0, j as int);
            let ghost post = masters@.subrange(0, j as int + 1);
            assert(post.drop_last() =~= pre);
            let k = masters[j].0;
            match &masters[j].1 {
                Ok(_) => {
                    let ghost before = saved@;
                    saved.push(p.masters[k].source_path.clone());
                    assert(saved@.map_values(|s: String| s@) =~= before.map_values(|s: String| s@).push(
                        p0.masters@[k as int].source_path@));
                    p.masters[k].dirty = false;
                    p.masters[k].modified_glyphs.clear();
                },
                Err(e) => {
                    let ghost before = failed@;
                    failed.push(e.clone());
                    assert(failed@.map_values(|s: String| s@) =~= before.map_values(|s: String| s@).push(e@));
                },
            }
            proof {
                assert forall|k2: int| 0 <= k2 < p0.masters@.len() implies if written(post, k2) {
                    clean(p0.masters@[k2], #[trigger] p.masters@[k2])
                } else {
                    p.masters@[k2] == p0.masters@[k2]
                } by {
                    if written(pre, k2) {
                        let i = choose|i: int| 0 <= i < pre.len() && #[trigger] pre[i].0 == k2 && pre[i].1 is Ok;
                        assert(post[i] == pre[i]);
                    }
                    if written(post, k2) && !written(pre, k2) {
                        let i = choose|i: int| 0 <= i < post.len() && #[trigger] post[i].0 == k2 && post[i].1 is Ok;
                        if i < pre.len() {
                            assert(pre[i] == post[i]);
                        }
                    }
                    if k2 == k as int && masters@[j as int].1 is Ok {
                        assert(post[j as int].0 == k2);
                    }
                }
            }
            j = j + 1;
        }
        assert(masters@.subrange(0, masters@.len() as int) =~= masters@);
        let ghost sp = saved_paths(p0.masters@, masters@);
        let ghost sf = save_failures(masters@);
        assert(sp + Seq::<Seq<char>>::empty() =~= sp);
        assert(sf + Seq::<Seq<char>>::empty() =~= sf);
        match designspace {
            Some(Ok(())) => {
                p.ds_dirty = false;
                if let Some(s) = &p.export_source {
                    let ghost before = saved@;
                    saved.push(s.clone());
                    assert(saved@.map_values(|s: String| s@) =~= before.map_values(|s: String| s@).push(s@));
                }
            },
            Some(Err(e)) => {
                let ghost before = failed@;
                failed.push(e.clone());
                assert(failed@.map_values(|s: String| s@) =~= before.map_values(|s: String| s@).push(e@));
            },
            None => {},
        }
        self.project = Some(p);
        self.last_save_label = Some(local_time_text(save_time_format()));
        self.status_note = Some(if failed.len() > 0 {
            StatusNote::SaveFailed(failed)
        } else if saved.len() == 0 {
            StatusNote::NothingToSave
        } else {
            StatusNote::Saved(saved)
        });
    }

    /// Save As, once a directory was picked: the file name each master
    /// gets there, in order.
    pub fn save_as_names(&self) -> (r: Vec<String>)
        ensures
            match self.project {
                Some(p) => r@.len() == p.masters@.len() && forall|k: int| 0 <= k < r@.len()
                    ==> #[trigger] r@[k]@ == save_as_name(p.masters@[k]),
                None => r@.len() == 0,
            },
    {
        let mut r: Vec<String> = Vec::new();
        let Some(p) = &self.project else {
            return r;
        };
        let mut k: usize = 0;
        while k < p.masters.len()
            invariant
                k <= p.masters@.len(),
                r@.len() == k,
                forall|i: int| 0 <= i < k ==> #[trigger] r@[i]@ == save_as_name(p.masters@[i]),
            decreases p.masters@.len() - k,
        {
            r.push(file_name_for(&p.masters[k]));
            k = k + 1;
        }
        r
    }

    /// Save As: each master moves to its new path, in master order, and
    /// waits to be saved there. The save itself follows.
    pub fn move_masters(&mut self, paths: Vec<String>)
        requires
            old(self).project matches Some(p) ==> paths@.len() == p.masters@.len(),
        ensures
            old(self).project is None ==> *final(self) == *old(self),
            old(self).project matches Some(p) ==> {
                &&& final(self).project matches Some(fp)
                &&& fp.masters@.len() == p.masters@.len()
                &&& forall|k: int| 0 <= k < p.masters@.len() ==> #[trigger] fp.masters@[k]
                    == (Master { source_path: paths@[k], dirty: true, ..p.masters@[k] })
                &&& fp == (Project { masters: fp.masters, ..p })
                &&& *final(self) == (Workspace { project: final(self).project, ..*old(self) })
            },
    {
        let Some(mut p) = self.project.take() else {
            return;
        };
        let ghost p0 = p;
        let ghost all = paths@;
        let mut rest = paths;
        let mut k: usize = p.masters.len();
        while k > 0
            invariant
                k <= p0.masters@.len(),
                rest@.len() == k,
                all.len() == p0.masters@.len(),
                rest@ == all.subrange(0, k as int),
                p.masters@.len() == p0.masters@.len(),
                p == (Project { masters: p.masters, ..p0 }),
                forall|i: int| 0 <= i < k ==> #[trigger] p.masters@[i] == p0.masters@[i],
                forall|i: int| k <= i < p0.masters@.len() ==> #[trigger] p.masters@[i]
                    == (Master { source_path: all[i], dirty: true, ..p0.masters@[i] }),
            decreases k,
        {
            let path = rest.pop().unwrap();
            k = k - 1;
            p.masters[k].source_path = path;
            p.masters[k].dirty = true;
        }
        self.project = Some(p);
    }

    /// File > New Font, once the engine made the font: it becomes the
    /// project, every tab closes, and the overview shows it with nothing
    /// selected; the status bar says it waits for Save As.
    pub fn adopt_new_font(&mut self, project: Project) -> (ops: Vec<EngineOp>)
        ensures
            ops@ == seq![EngineOp::RebuildTextModels],
            final(self).sessions@.len() == 0,
            *final(self) == (Workspace {
                project: Some(project),
                sessions: final(self).sessions,
                active_session: 0,
                mode: Mode::Grid,
                selected: None,
                last_editor: None,
                sidebar_counts: false,
                status_note: Some(StatusNote::NewFont),
                ..*old(self)
            }),
    {
        self.sessions.clear();
        self.active_session = 0;
        self.project = Some(project);
        self.mode = Mode::Grid;
        self.selected = None;
        self.last_editor = None;
        self.sidebar_counts = false;
        self.status_note = Some(StatusNote::NewFont);
        let mut ops = Vec::new();
        ops.push(EngineOp::RebuildTextModels);
        ops
    }
}

} // verus!
