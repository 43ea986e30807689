//! Exporting a binary font: what happens first, which way the export
//! goes, and what the status bar says of it. Finding the files and
//! running the compilers is the application's work.
use vstd::prelude::*;
use crate::model::{EngineOp, StatusNote, Workspace};
use crate::nodes::{file_name_of, path_file_name};
use crate::saving::{lemma_last_dot, last_dot};
use crate::text::{chars_of, joined, slice, string_of, trim, trimmed};
use crate::names::texts;

verus! {

/// Which way an export runs.
#[derive(PartialEq, Eq, Debug)]
pub enum ExportRoute {
    /// Through the project's build script, of this name.
    BuildScript(String),
    /// Straight through the compiler, to a file of this stem.
    Compiler(String),
}

/// The stem of a path's file name, as `std::path::Path::file_stem` reads
/// it: the name up to its last dot, unless that dot is the first
/// character or there is none.
pub open spec fn file_stem_of(path: Seq<char>) -> Option<Seq<char>> {
    match file_name_of(path) {
        Some(n) => Some(if last_dot(n) <= 0 { n } else { n.subrange(0, last_dot(n)) }),
        None => None,
    }
}

/// What the status bar calls a build script: its file name, or `build
/// script` when the path has none.
pub open spec fn script_label(script: Seq<char>) -> Seq<char> {
    match file_name_of(script) {
        Some(n) => n,
        None => "build script"@,
    }
}

/// The stem of the path's file name.
pub fn path_file_stem(path: &str) -> (r: Option<String>)
    ensures
        r matches Some(t) ==> file_stem_of(path@) == Some(t@),
        r is None ==> file_stem_of(path@) is None,
{
    let Some(name) = path_file_name(path) else {
        return None;
    };
    let s = chars_of(name.as_str());
    let mut k: usize = s.len();
    while k > 0 && s[k - 1] != '.'
        invariant
            k <= s@.len(),
            forall|j: int| k <= j < s@.len() ==> s@[j] != '.',
        decreases k,
    {
        k = k - 1;
    }
    proof {
        lemma_last_dot(s@);
        if k > 0 {
            assert(last_dot(s@) == k - 1) by {
                if last_dot(s@) > k - 1 {
                    assert(s@[last_dot(s@)] == '.');
                }
                if last_dot(s@) < k - 1 {
                    assert(s@[k - 1] == '.');
                }
            }
        } else {
            assert(last_dot(s@) == -1) by {
                if last_dot(s@) >= 0 {
                    assert(s@[last_dot(s@)] == '.');
                }
            }
        }
    }
    if k <= 1 {
        Some(name)
    } else {
        Some(string_of(&slice(&s, 0, k - 1)))
    }
}

/// What the status bar calls the build script at `script`.
pub fn build_script_label(script: &str) -> (r: String)
    ensures
        r@ == script_label(script@),
{
    match path_file_name(script) {
        Some(n) => n,
        None => String::from_str("build script"),
    }
}

impl Workspace {
    /// The stem the compiled font is named after: the export source's,
    /// or `font`.
    pub open spec fn export_stem(&self) -> Seq<char> {
        match self.export_source_of() {
            Some(src) => match file_stem_of(src) {
                Some(t) => t,
                None => "font"@,
            },
            None => "font"@,
        }
    }

    /// Whether some master has unsaved edits.
    pub open spec fn any_dirty(&self) -> bool {
        self.project matches Some(p) && exists|m: int| 0 <= m < p.masters@.len() && #[trigger] p.masters@[m].dirty
    }

    /// The file an export starts from: the project's export source, else
    /// the active master's source.
    pub open spec fn export_source_of(&self) -> Option<Seq<char>> {
        match self.project {
            Some(p) => match p.export_source {
                Some(s) => Some(s@),
                None => if p.wf() { Some(p.active_master().source_path@) } else { None },
            },
            None => None,
        }
    }

    /// Export, first step: save when some master has unsaved edits, and
    /// name the file the export starts from.
    pub fn export_request(&self) -> (r: (Vec<EngineOp>, Option<String>))
        ensures
            r.0@ == if self.any_dirty() { seq![EngineOp::Save] } else { Seq::empty() },
            r.1 matches Some(s) ==> self.export_source_of() == Some(s@),
            r.1 is None ==> self.export_source_of() is None,
    {
        let mut ops = Vec::new();
        let Some(p) = &self.project else {
            return (ops, None);
        };
        let mut m: usize = 0;
        let mut dirty = false;
        while m < p.masters.len()
            invariant
                m <= p.masters@.len(),
                dirty == exists|k: int| 0 <= k < m && #[trigger] p.masters@[k].dirty,
            decreases p.masters@.len() - m,
        {
            if p.masters[m].dirty {
                dirty = true;
            }
            m += 1;
        }
        if dirty {
            ops.push(EngineOp::Save);
        }
        let source = match &p.export_source {
            Some(s) => Some(s.clone()),
            None => if p.active < p.masters.len() {
                Some(p.masters[p.active].source_path.clone())
            } else {
                None
            },
        };
        (ops, source)
    }

    /// Export, second step, once the source has been looked for: a source
    /// not on disk asks for a save; a build script beside it (at
    /// `script`) runs; otherwise the compiler, when it can be found,
    /// writes a font named after the source's stem.
    pub fn command_export(&mut self, source_exists: bool, script: Option<String>, compiler_found: bool)
        -> (route: Option<ExportRoute>)
        ensures
            old(self).export_source_of() is None ==> route is None && *final(self) == *old(self),
            old(self).export_source_of() is Some ==> old(self).export_routed(source_exists, script, compiler_found,
                *final(self), route),
    {
        let (_, source) = self.export_request();
        if source.is_none() {
            return None;
        }
        self.route_export(source_exists, script, compiler_found)
    }

    /// Whether `f` and `route` are what the export's second step leaves,
    /// for a project whose export source is known.
    pub open spec fn export_routed(&self, source_exists: bool, script: Option<String>, compiler_found: bool,
        f: Workspace, route: Option<ExportRoute>) -> bool {
        &&& !source_exists ==> route is None
            && f == (Workspace { status_note: Some(StatusNote::SaveBeforeExport), ..*self })
        &&& source_exists && script is Some ==> (route matches Some(ExportRoute::BuildScript(l))
            && l@ == script_label(script->0@)
            && f == (Workspace { status_note: Some(StatusNote::ExportingThrough(l)), ..*self }))
        &&& source_exists && script is None && !compiler_found ==> route is None
            && f == (Workspace { status_note: Some(StatusNote::FontcMissing), ..*self })
        &&& source_exists && script is None && compiler_found ==> (route matches Some(ExportRoute::Compiler(t))
            && t@ == self.export_stem()
            && f == (Workspace { status_note: Some(StatusNote::Exporting(t)), ..*self }))
    }

    fn route_export(&mut self, source_exists: bool, script: Option<String>, compiler_found: bool)
        -> (route: Option<ExportRoute>)
        ensures
            !source_exists ==> route is None
                && *final(self) == (Workspace { status_note: Some(StatusNote::SaveBeforeExport), ..*old(self) }),
            source_exists && script is Some ==> (route matches Some(ExportRoute::BuildScript(l))
                && l@ == script_label(script->0@)
                && *final(self) == (Workspace { status_note: Some(StatusNote::ExportingThrough(l)), ..*old(self) })),
            source_exists && script is None && !compiler_found ==> route is None
                && *final(self) == (Workspace { status_note: Some(StatusNote::FontcMissing), ..*old(self) }),
            source_exists && script is None && compiler_found ==> (route matches Some(ExportRoute::Compiler(t))
                && t@ == old(self).export_stem()
                && *final(self) == (Workspace { status_note: Some(StatusNote::Exporting(t)), ..*old(self) })),
    {
        if !source_exists {
            self.status_note = Some(StatusNote::SaveBeforeExport);
            return None;
        }
        if let Some(path) = script {
            let label = build_script_label(path.as_str());
            self.status_note = Some(StatusNote::ExportingThrough(label.clone()));
            return Some(ExportRoute::BuildScript(label));
        }
        if !compiler_found {
            self.status_note = Some(StatusNote::FontcMissing);
            return None;
        }
        let (_, source) = self.export_request();
        let stem = match source {
            Some(src) => match path_file_stem(src.as_str()) {
                Some(t) => t,
                None => String::from_str("font"),
            },
            None => String::from_str("font"),
        };
        self.status_note = Some(StatusNote::Exporting(stem.clone()));
        Some(ExportRoute::Compiler(stem))
    }

    /// An export ended: the status bar says how, as `export_end_text`
    /// words it.
    pub fn finish_export(&mut self, end: ExportEnd)
        ensures
            match export_end_text(end) {
                Ok(t) => final(self).status_note matches Some(StatusNote::Exported(n)) && n@ == t,
                Err(t) => final(self).status_note matches Some(StatusNote::ExportFailed(n)) && n@ == t,
            },
            *final(self) == (Workspace { status_note: final(self).status_note, ..*old(self) }),
    {
        let note = match export_end_note(&end) {
            Ok(t) => StatusNote::Exported(t),
            Err(t) => StatusNote::ExportFailed(t),
        };
        self.status_note = Some(note);
    }
}

/// How an export run ended, as the application saw it.
pub enum ExportEnd {
    /// The build script `label` ran in `workdir`: whether it succeeded,
    /// and the lines of its error stream.
    Script { label: String, workdir: String, success: bool, stderr: Vec<String> },
    /// The compiler ran to write `path`: whether it succeeded, whether the
    /// Google Fonts fixes were applied after, and the lines of its error
    /// stream.
    Compiler { path: String, success: bool, fixed: bool, stderr: Vec<String> },
    /// The tool could not be started, or its output directory made; why.
    NotStarted(String),
}

/// The last line that holds more than white space.
pub open spec fn last_nonblank(lines: Seq<Seq<char>>) -> Option<Seq<char>>
    decreases lines.len(),
{
    if lines.len() == 0 {
        None
    } else if trim(lines.last()).len() > 0 {
        Some(lines.last())
    } else {
        last_nonblank(lines.drop_last())
    }
}

/// `name` inside the directory `dir`, as `Path::join` puts it: a `/`
/// between them unless `dir` is empty or already ends in one.
pub open spec fn joined_path(dir: Seq<char>, name: Seq<char>) -> Seq<char> {
    if dir.len() == 0 || dir.last() == '/' { dir + name } else { dir + "/"@ + name }
}

/// What the status bar says of an export that ended: `Ok` for the
/// success line, `Err` for why it failed (the last line of the error
/// stream that says anything, or the tool's name and `failed`).
pub open spec fn export_end_text(end: ExportEnd) -> Result<Seq<char>, Seq<char>> {
    match end {
        ExportEnd::Script { label, workdir, success, stderr } => if success {
            Ok("Exported through "@ + label@ + " → "@ + joined_path(workdir@, "fonts"@))
        } else {
            match last_nonblank(texts(stderr@)) {
                Some(l) => Err(l),
                None => Err("build script failed"@),
            }
        },
        ExportEnd::Compiler { path, success, fixed, stderr } => if success {
            if fixed {
                Ok("Exported "@ + path@ + " (gftools fixes applied)"@)
            } else {
                Ok("Exported "@ + path@ + " (no gftools on PATH: skipped GF fixes)"@)
            }
        } else {
            match last_nonblank(texts(stderr@)) {
                Some(l) => Err(l),
                None => Err("fontc failed"@),
            }
        },
        ExportEnd::NotStarted(e) => Err(e@),
    }
}

/// The last line of `lines` that holds more than white space.
pub fn last_nonblank_line(lines: &Vec<String>) -> (r: Option<String>)
    ensures
        match r {
            Some(l) => last_nonblank(texts(lines@)) == Some(l@),
            None => last_nonblank(texts(lines@)) is None,
        },
{
    let mut k: usize = lines.len();
    assert(lines@.subrange(0, k as int) =~= lines@);
    while k > 0
        invariant
            k <= lines@.len(),
            last_nonblank(texts(lines@)) == last_nonblank(texts(lines@.subrange(0, k as int))),
        decreases k,
    {
        let t = trimmed(&chars_of(lines[k - 1].as_str()));
        let ghost pre = texts(lines@.subrange(0, k as int));
        assert(pre.last() == lines@[k - 1]@);
        assert(pre.drop_last() =~= texts(lines@.subrange(0, k - 1)));
        if t.len() > 0 {
            return Some(lines[k - 1].clone());
        }
        k = k - 1;
    }
    assert(texts(lines@.subrange(0, 0)) =~= Seq::<Seq<char>>::empty());
    None
}

fn put(v: &mut Vec<char>, s: &str)
    ensures
        final(v)@ == old(v)@ + s@,
{
    let r = joined(v, &chars_of(s));
    *v = r;
}

/// The words of an export's end.
pub fn export_end_note(end: &ExportEnd) -> (r: Result<String, String>)
    ensures
        match r {
            Ok(t) => export_end_text(*end) == Ok::<Seq<char>, Seq<char>>(t@),
            Err(t) => export_end_text(*end) == Err::<Seq<char>, Seq<char>>(t@),
        },
{
    match end {
        ExportEnd::Script { label, workdir, success, stderr } => {
            if *success {
                let mut v: Vec<char> = Vec::new();
                put(&mut v, "Exported through ");
                put(&mut v, label.as_str());
                put(&mut v, " → ");
                put(&mut v, workdir.as_str());
                let w = chars_of(workdir.as_str());
                if w.len() > 0 && w[w.len() - 1] != '/' {
                    put(&mut v, "/");
                }
                put(&mut v, "fonts");
                assert(v@ =~= "Exported through "@ + label@ + " → "@ + joined_path(workdir@, "fonts"@));
                Ok(string_of(&v))
            } else {
                match last_nonblank_line(stderr) {
                    Some(l) => Err(l),
                    None => Err(String::from_str("build script failed")),
                }
            }
        },
        ExportEnd::Compiler { path, success, fixed, stderr } => {
            if *success {
                let mut v: Vec<char> = Vec::new();
                put(&mut v, "Exported ");
                put(&mut v, path.as_str());
                if *fixed {
                    put(&mut v, " (gftools fixes applied)");
                } else {
                    put(&mut v, " (no gftools on PATH: skipped GF fixes)");
                }
                assert(v@ =~= "Exported "@ + path@ + (if *fixed { " (gftools fixes applied)"@ } else {
                    " (no gftools on PATH: skipped GF fixes)"@ }));
                Ok(string_of(&v))
            } else {
                match last_nonblank_line(stderr) {
                    Some(l) => Err(l),
                    None => Err(String::from_str("fontc failed")),
                }
            }
        },
        ExportEnd::NotStarted(e) => Err(e.clone()),
    }
}

} // verus!
