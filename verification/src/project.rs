//! Edits to the project data the shell keeps.
use vstd::prelude::*;
use crate::model::{Master, Project, Workspace};
use crate::names::{insert_name, texts, with_name};

verus! {

/// Whether `f` is `m` with unsaved edits to glyph `name`.
pub open spec fn marked(m: Master, name: Seq<char>, f: Master) -> bool {
    &&& texts(f.modified_glyphs@) == with_name(texts(m.modified_glyphs@), name)
    &&& f == (Master { dirty: true, modified_glyphs: f.modified_glyphs, ..m })
}

/// Whether project `f` is `p` with master `a` replaced by one for which
/// `same` holds, the other masters unchanged.
pub open spec fn master_replaced(p: Project, a: int, f: Project, m: Master) -> bool {
    &&& f.masters@ == p.masters@.update(a, m)
    &&& f == (Project { masters: f.masters, ..p })
}

impl Workspace {
    /// Whether `f` is this state with the active master marked as holding
    /// unsaved edits to glyph `name`.
    pub open spec fn marked_modified(&self, name: Seq<char>, f: Workspace) -> bool {
        let p = self.project->0;
        &&& f.project matches Some(fp)
        &&& master_replaced(p, p.active as int, fp, fp.masters@[p.active as int])
        &&& marked(p.active_master(), name, fp.masters@[p.active as int])
        &&& f == (Workspace { project: f.project, ..*self })
    }

    /// Mark the active master as holding unsaved edits to glyph `name`.
    pub fn mark_modified(&mut self, name: &String)
        requires
            old(self).has_font(),
        ensures
            old(self).marked_modified(name@, *final(self)),
    {
        match &mut self.project {
            Some(p) => {
                let a = p.active;
                let ghost before = p.masters@;
                p.masters[a].dirty = true;
                insert_name(&mut p.masters[a].modified_glyphs, name);
                assert(p.masters@ =~= before.update(a as int, p.masters@[a as int]));
            },
            None => {},
        }
    }
}

} // verus!
