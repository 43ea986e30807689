//! The designspace document: substitution rules, axis mappings,
//! instances; and the commands that rebuild glyphs from the masters.
use vstd::prelude::*;
use crate::model::{AxisMap, AxisMapping, Designspace, EngineOp, Instance, Project, Rule, StatusNote, Workspace};
use crate::text::{chars_of, joined, string_of, trim, trimmed};

verus! {

/// Whether rule `r` substitutes the glyph called `name`.
pub open spec fn substitutes(r: Rule, name: Seq<char>) -> bool {
    exists|j: int| 0 <= j < r.substitutions@.len() && (#[trigger] r.substitutions@[j]).0@ == name
}

/// A rule stays unless it substitutes `name`.
pub open spec fn keeps_rule(name: Seq<char>) -> spec_fn(Rule) -> bool {
    |r: Rule| !substitutes(r, name)
}

fn rule_substitutes(r: &Rule, name: &String) -> (b: bool)
    ensures
        b == substitutes(*r, name@),
{
    let mut j: usize = 0;
    while j < r.substitutions.len()
        invariant
            j <= r.substitutions@.len(),
            forall|k: int| 0 <= k < j ==> r.substitutions@[k].0@ != name@,
        decreases r.substitutions@.len() - j,
    {
        if r.substitutions[j].0 == *name {
            return true;
        }
        j += 1;
    }
    false
}

fn rules_without(rules: Vec<Rule>, name: &String) -> (r: Vec<Rule>)
    ensures
        r@ == rules@.filter(keeps_rule(name@)),
{
    let mut kept: Vec<Rule> = Vec::new();
    let mut rest = rules;
    let ghost all = rest@;
    let ghost mut done: Seq<Rule> = Seq::empty();
    while rest.len() > 0
        invariant
            all == done + rest@,
            kept@ == done.filter(keeps_rule(name@)),
        decreases rest@.len(),
    {
        proof { reveal(Seq::filter); }
        let ghost before = rest@;
        let r = rest.remove(0);
        let keep = !rule_substitutes(&r, name);
        proof {
            let nd = done.push(r);
            assert(nd.drop_last() =~= done);
            assert(all =~= nd + rest@) by {
                assert(before =~= seq![r] + rest@);
            }
            done = nd;
        }
        if keep {
            kept.push(r);
        }
    }
    assert(done =~= all);
    kept
}

/// The family the first master names, when it names one.
pub open spec fn first_family(p: Project) -> Option<String> {
    if p.masters@.len() > 0 { p.masters@[0].family_name } else { None }
}

/// The full name an instance of style `style` gets: `<family> <style>`,
/// when the family is known.
pub open spec fn full_name(family: Option<String>, style: Seq<char>) -> Option<Seq<char>> {
    match family {
        Some(f) => Some(f@ + " "@ + style),
        None => None,
    }
}

/// Whether instance `inst` carries style `style` and the full name that
/// goes with it, keeping its own full name when the family is unknown.
pub open spec fn named_instance(before: Option<Instance>, family: Option<String>, style: Seq<char>, inst: Instance) -> bool {
    &&& inst.stylename matches Some(s) && s@ == style
    &&& match full_name(family, style) {
        Some(n) => inst.name matches Some(x) && x@ == n,
        None => inst.name == match before { Some(o) => o.name, None => None },
    }
}

impl Workspace {
    /// Drop the designspace rules that substitute the current glyph (its
    /// alternates stay). The status bar says so when any went.
    pub fn command_remove_shape_switch(&mut self)
        requires
            old(self).refs_ok(),
        ensures
            !(old(self).current_glyph() is Some && old(self).has_font()
                && old(self).project->0.designspace is Some) ==> *final(self) == *old(self),
            (old(self).current_glyph() is Some && old(self).has_font()
                && old(self).project->0.designspace is Some) ==> {
                let p = old(self).project->0;
                let ds = p.designspace->0;
                let name = p.active_master().glyphs@[old(self).current_glyph()->0 as int].name;
                let kept = ds.rules@.filter(keeps_rule(name@));
                if kept.len() == ds.rules@.len() {
                    &&& final(self).project matches Some(fp)
                    &&& fp.designspace matches Some(fds) && fds.rules@ == kept
                        && fds == (Designspace { rules: fds.rules, ..ds })
                    &&& fp == (Project { designspace: fp.designspace, ..p })
                    &&& *final(self) == (Workspace { project: final(self).project, ..*old(self) })
                } else {
                    &&& final(self).project matches Some(fp)
                    &&& fp.designspace matches Some(fds) && fds.rules@ == kept
                        && fds == (Designspace { rules: fds.rules, ..ds })
                    &&& fp == (Project { designspace: fp.designspace, ds_dirty: true, ..p })
                    &&& *final(self) == (Workspace {
                        project: final(self).project,
                        status_note: Some(StatusNote::ShapeSwitchRemoved(name)),
                        ..*old(self)
                    })
                }
            },
    {
        let Some(index) = self.current_glyph_index() else {
            return;
        };
        let Some(p) = &mut self.project else {
            return;
        };
        if p.active >= p.masters.len() {
            return;
        }
        let name = p.masters[p.active].glyphs[index].name.clone();
        let Some(ds) = &mut p.designspace else {
            return;
        };
        let before = ds.rules.len();
        let mut rules = Vec::new();
        std::mem::swap(&mut rules, &mut ds.rules);
        ds.rules = rules_without(rules, &name);
        if ds.rules.len() != before {
            p.ds_dirty = true;
            self.status_note = Some(StatusNote::ShapeSwitchRemoved(name));
        }
    }

    /// Add a mapping pair on the first axis, once the new map is worked
    /// out: `map` is the axis's map with the pair in place of any at
    /// nearly the same input, ordered by input; the pair is `input_bits`
    /// to `output_bits`, each the bits of a number. The map becomes
    /// that, the designspace has edits waiting, and the status bar names
    /// the pair. Without a designspace the status bar says one is needed;
    /// without an axis, or a font, nothing happens.
    pub fn command_add_axis_mapping(&mut self, map: Vec<AxisMapping>, input_bits: u64, output_bits: u64)
        ensures
            old(self).project is None ==> *final(self) == *old(self),
            (old(self).project matches Some(p) && p.designspace is None) ==> *final(self) == (Workspace {
                status_note: Some(StatusNote::AxisMapNeedsDesignspace),
                ..*old(self)
            }),
            (old(self).project matches Some(p) && p.designspace matches Some(ds) && ds.first_axis is None)
                ==> *final(self) == *old(self),
            (old(self).project matches Some(p) && p.designspace matches Some(ds) && ds.first_axis is Some) ==> {
                let p = old(self).project->0;
                let ds = p.designspace->0;
                &&& final(self).project == Some(Project {
                    designspace: Some(Designspace { first_axis: Some(AxisMap { map: Some(map) }), ..ds }),
                    ds_dirty: true,
                    ..p
                })
                &&& *final(self) == (Workspace {
                    project: final(self).project,
                    status_note: Some(StatusNote::AxisMapped(input_bits, output_bits)),
                    ..*old(self)
                })
            },
    {
        let Some(p) = &mut self.project else {
            return;
        };
        let Some(ds) = &mut p.designspace else {
            self.status_note = Some(StatusNote::AxisMapNeedsDesignspace);
            return;
        };
        let Some(axis) = &mut ds.first_axis else {
            return;
        };
        axis.map = Some(map);
        p.ds_dirty = true;
        self.status_note = Some(StatusNote::AxisMapped(input_bits, output_bits));
    }

    /// Drop one avar pair of the first axis; an emptied map goes.
    pub fn command_remove_axis_mapping(&mut self, index: usize)
        ensures
            !(old(self).project matches Some(p) && p.designspace matches Some(ds)
                && ds.first_axis matches Some(ax) && ax.map matches Some(map) && index < map@.len())
                ==> *final(self) == *old(self),
            (old(self).project matches Some(p) && p.designspace matches Some(ds)
                && ds.first_axis matches Some(ax) && ax.map matches Some(map) && index < map@.len()) ==> {
                let p = old(self).project->0;
                let ds = p.designspace->0;
                let map = ds.first_axis->0.map->0;
                &&& final(self).project matches Some(fp)
                &&& fp.designspace matches Some(fds)
                &&& fds.first_axis matches Some(fax)
                &&& if map@.len() == 1 {
                    fax.map is None
                } else {
                    fax.map matches Some(fmap) && fmap@ == map@.remove(index as int)
                }
                &&& fds == (Designspace { first_axis: fds.first_axis, ..ds })
                &&& fp == (Project { designspace: fp.designspace, ds_dirty: true, ..p })
                &&& *final(self) == (Workspace { project: final(self).project, ..*old(self) })
            },
    {
        let Some(p) = &mut self.project else {
            return;
        };
        let Some(ds) = &mut p.designspace else {
            return;
        };
        let Some(axis) = &mut ds.first_axis else {
            return;
        };
        let Some(map) = &mut axis.map else {
            return;
        };
        if index >= map.len() {
            return;
        }
        map.remove(index);
        if map.len() == 0 {
            axis.map = None;
        }
        p.ds_dirty = true;
    }

    /// Whether `f` and `ops` are what Enter in the Instances field with
    /// `name` leaves, when `at` is the instance found at the preview
    /// location.
    pub open spec fn upserted(&self, name: Seq<char>, at: Option<usize>, f: Workspace, ops: Seq<EngineOp>) -> bool {
        &&& (trim(name).len() == 0 || self.project is None) ==> f == *self && ops.len() == 0
        &&& (trim(name).len() > 0 && (self.project matches Some(p) && p.designspace is None)) ==> f == (Workspace {
                status_note: Some(StatusNote::InstancesNeedDesignspace),
                ..*self
            }) && ops.len() == 0
        &&& (trim(name).len() > 0 && (self.project matches Some(p) && p.designspace is Some)) ==> {
                let p = self.project->0;
                let ds = p.designspace->0;
                let style = trim(name);
                let family = first_family(p);
                let n = ds.instances@.len();
                let renamed = at matches Some(i) && i < n;
                let k: int = if renamed { at->0 as int } else { n as int };
                &&& f.project matches Some(fp)
                &&& fp.designspace matches Some(fds)
                &&& if renamed {
                    &&& fds.instances@.len() == n
                    &&& fds.instances@ == ds.instances@.update(k, fds.instances@[k])
                    &&& named_instance(Some(ds.instances@[k]), family, style, fds.instances@[k])
                } else {
                    &&& fds.instances@.len() == n + 1
                    &&& fds.instances@.drop_last() == ds.instances@
                    &&& named_instance(None, family, style, fds.instances@[k])
                }
                &&& fds == (Designspace { instances: fds.instances, ..ds })
                &&& fp == (Project { designspace: fp.designspace, ds_dirty: true, ..p })
                &&& f.status_note matches Some(note) && if renamed {
                    note matches StatusNote::InstanceRenamed(x) && x@ == style
                } else {
                    note matches StatusNote::InstanceAdded(x) && x@ == style
                }
                &&& f == (Workspace { project: f.project, status_note: f.status_note, ..*self })
                &&& ops == (if renamed { Seq::empty() } else { seq![EngineOp::PlaceInstance(k as usize)] })
                    + (if family is Some { seq![EngineOp::LinkInstanceStyle(k as usize)] } else { Seq::empty() })
                    + seq![EngineOp::RefreshInstances]
            }
    }

    /// Enter in the Instances field: `name`, trimmed, is the style of the
    /// instance at the preview location; `at` is the instance found
    /// there, when there is one. That instance takes the style, and the
    /// full name `<family> <style>` when the first master names its
    /// family; with none there, a new instance of that style and full
    /// name is added at the preview location. The engine writes the style
    /// linking when the family is known; the designspace has edits
    /// waiting and the instance list is read again; the status bar says
    /// which happened. Without a designspace it says one is needed; an
    /// empty name, or no font, does nothing.
    pub fn command_instance_upsert(&mut self, name: &str, at: Option<usize>) -> (ops: Vec<EngineOp>)
        ensures
            old(self).upserted(name@, at, *final(self), ops@),
    {
        let mut ops = Vec::new();
        let style = trimmed(&chars_of(name));
        if style.len() == 0 {
            return ops;
        }
        let Some(mut p) = self.project.take() else {
            return ops;
        };
        let family = if p.masters.len() > 0 { p.masters[0].family_name.clone() } else { None };
        let Some(mut ds) = p.designspace.take() else {
            self.project = Some(p);
            self.status_note = Some(StatusNote::InstancesNeedDesignspace);
            return ops;
        };
        let ghost ds0 = ds;
        let n = ds.instances.len();
        let full = match &family {
            Some(f) => Some(string_of(&joined(&joined(&chars_of(f.as_str()), &chars_of(" ")), &style))),
            None => None,
        };
        let renamed = match at {
            Some(i) => i < n,
            None => false,
        };
        let k = if renamed { match at { Some(i) => i, None => 0 } } else { n };
        if renamed {
            let mut inst = ds.instances.remove(k);
            inst.stylename = Some(string_of(&style));
            if full.is_some() {
                inst.name = full;
            }
            ds.instances.insert(k, inst);
            assert(ds.instances@ =~= ds0.instances@.update(k as int, ds.instances@[k as int]));
            self.status_note = Some(StatusNote::InstanceRenamed(string_of(&style)));
        } else {
            ds.instances.push(Instance { stylename: Some(string_of(&style)), name: full });
            assert(ds.instances@.drop_last() =~= ds0.instances@);
            ops.push(EngineOp::PlaceInstance(k));
            self.status_note = Some(StatusNote::InstanceAdded(string_of(&style)));
        }
        if family.is_some() {
            ops.push(EngineOp::LinkInstanceStyle(k));
        }
        ops.push(EngineOp::RefreshInstances);
        assert(ops@ =~= (if renamed { Seq::empty() } else { seq![EngineOp::PlaceInstance(k)] })
            + (if family is Some { seq![EngineOp::LinkInstanceStyle(k)] } else { Seq::empty() })
            + seq![EngineOp::RefreshInstances]);
        p.designspace = Some(ds);
        p.ds_dirty = true;
        self.project = Some(p);
        ops
    }

    /// Drop one instance; the instance list is read again.
    pub fn command_instance_delete(&mut self, index: usize) -> (ops: Vec<EngineOp>)
        ensures
            !(old(self).project matches Some(p) && p.designspace matches Some(ds) && index < ds.instances@.len())
                ==> *final(self) == *old(self) && ops@.len() == 0,
            (old(self).project matches Some(p) && p.designspace matches Some(ds) && index < ds.instances@.len()) ==> {
                let p = old(self).project->0;
                let ds = p.designspace->0;
                &&& ops@ == seq![EngineOp::RefreshInstances]
                &&& final(self).project matches Some(fp)
                &&& fp.designspace matches Some(fds)
                &&& fds.instances@ == ds.instances@.remove(index as int)
                &&& fds == (Designspace { instances: fds.instances, ..ds })
                &&& fp == (Project { designspace: fp.designspace, ds_dirty: true, ..p })
                &&& *final(self) == (Workspace { project: final(self).project, ..*old(self) })
            },
    {
        let mut ops = Vec::new();
        let Some(p) = &mut self.project else {
            return ops;
        };
        let Some(ds) = &mut p.designspace else {
            return ops;
        };
        if index < ds.instances.len() {
            ds.instances.remove(index);
            p.ds_dirty = true;
            ops.push(EngineOp::RefreshInstances);
        }
        ops
    }

    /// Glyph > Reinterpolate: ask the engine to rebuild the current
    /// glyph of the active master from the other masters.
    pub fn command_reinterpolate(&self) -> (ops: Vec<EngineOp>)
        requires
            self.refs_ok(),
        ensures
            !(self.current_glyph() is Some && self.has_font()) ==> ops@.len() == 0,
            (self.current_glyph() is Some && self.has_font()) ==> ops@ == seq![EngineOp::Reinterpolate(
                self.project->0.active_master().glyphs@[self.current_glyph()->0 as int].name)],
    {
        let mut ops = Vec::new();
        let Some(index) = self.current_glyph_index() else {
            return ops;
        };
        let Some(p) = &self.project else {
            return ops;
        };
        if p.active >= p.masters.len() {
            return ops;
        }
        ops.push(EngineOp::Reinterpolate(p.masters[p.active].glyphs[index].name.clone()));
        ops
    }

    /// Reinterpolate, once the engine answers: a refusal is shown as it
    /// came; a rebuilt outline is stored as an undoable step, and the
    /// glyph marked edited.
    pub fn finish_reinterpolate(&mut self, outcome: Result<(), String>) -> (ops: Vec<EngineOp>)
        requires
            old(self).refs_ok(),
        ensures
            outcome is Err ==> ops@.len() == 0
                && *final(self) == (Workspace { status_note: Some(StatusNote::Text(outcome->Err_0)), ..*old(self) }),
            outcome is Ok && !(old(self).current_glyph() is Some && old(self).has_font()) ==>
                ops@.len() == 0 && *final(self) == *old(self),
            outcome is Ok && old(self).current_glyph() is Some && old(self).has_font() ==> {
                let i = old(self).current_glyph()->0;
                let name = old(self).project->0.active_master().glyphs@[i as int].name;
                let w = Workspace { nudging: false, ..*old(self) };
                &&& ops@ == seq![EngineOp::RecordUndo(i), EngineOp::WriteReinterpolated(name)]
                &&& w.marked_modified(name@, Workspace { status_note: w.status_note, ..*final(self) })
                &&& final(self).status_note == Some(StatusNote::Reinterpolated(name))
            },
    {
        if let Err(why) = outcome {
            self.status_note = Some(StatusNote::Text(why));
            return Vec::new();
        }
        let Some(index) = self.current_glyph_index() else {
            return Vec::new();
        };
        let name = match &self.project {
            Some(p) => {
                if p.active >= p.masters.len() {
                    return Vec::new();
                }
                p.masters[p.active].glyphs[index].name.clone()
            },
            None => {
                return Vec::new();
            },
        };
        let mut ops = self.push_undo_snapshot(index);
        ops.push(EngineOp::WriteReinterpolated(name.clone()));
        self.mark_modified(&name);
        self.status_note = Some(StatusNote::Reinterpolated(name));
        ops
    }

    /// Glyph > Sync Metrics: ask the engine to apply every metrics key in
    /// every master.
    pub fn command_sync_metrics(&self) -> (ops: Vec<EngineOp>)
        ensures
            self.project is Some ==> ops@ == seq![EngineOp::SyncMetrics],
            self.project is None ==> ops@.len() == 0,
    {
        let mut ops = Vec::new();
        if self.project.is_some() {
            ops.push(EngineOp::SyncMetrics);
        }
        ops
    }

    /// Sync Metrics, once the engine says how many sidebearings moved.
    pub fn finish_sync_metrics(&mut self, adjusted: usize) -> (ops: Vec<EngineOp>)
        ensures
            ops@ == seq![EngineOp::RebuildTextModels],
            *final(self) == (Workspace {
                status_note: Some(if adjusted == 0 { StatusNote::MetricsInSync } else { StatusNote::MetricsAdjusted(adjusted) }),
                ..*old(self)
            }),
    {
        let mut ops = Vec::new();
        ops.push(EngineOp::RebuildTextModels);
        self.status_note = Some(if adjusted == 0 { StatusNote::MetricsInSync } else { StatusNote::MetricsAdjusted(adjusted) });
        ops
    }
}

} // verus!
