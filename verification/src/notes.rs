//! What the status bar and the features section say for each note.
//! Notes that carry a coordinate or a score show a floating-point number,
//! which the library does not format: for those there is no text here.
use vstd::prelude::*;
use crate::model::StatusNote;
use crate::names::texts;
use crate::decimal::{dec, decimal};
use crate::text::{chars_of, joined, string_of};

verus! {

/// `items` one after another with `sep` between them.
pub open spec fn joined_with(items: Seq<Seq<char>>, sep: Seq<char>) -> Seq<char>
    decreases items.len(),
{
    if items.len() == 0 {
        Seq::empty()
    } else if items.len() == 1 {
        items[0]
    } else {
        joined_with(items.drop_last(), sep) + sep + items.last()
    }
}

/// The decimal numeral of `n`.
pub open spec fn num(n: int) -> Seq<char> {
    dec(n as nat)
}

/// `n` with its sign always written: `+3`, `-2`, `+0`.
pub open spec fn signed(n: int) -> Seq<char> {
    if n >= 0 { "+"@ + dec(n as nat) } else { "-"@ + dec((-n) as nat) }
}

/// The `s` of a plural, for a count of `n`.
pub open spec fn plural_s(n: int) -> Seq<char> {
    if n == 1 { Seq::empty() } else { "s"@ }
}

/// The text of a note, none for the notes that show a floating-point
/// number.
pub open spec fn note_text(n: StatusNote) -> Option<Seq<char>> {
    match n {
        StatusNote::NoBackgroundToSwap => Some("No background to swap"@),
        StatusNote::TidyPaths(k) => Some("Tidy up Paths: "@ + num(k as int) + " point(s) removed"@),
        StatusNote::CorrectPathDirection(k) => Some("Correct Path Direction: "@ + num(k as int) + " contour(s) reversed"@),
        StatusNote::RoundCoordinates(k) => Some("Round Coordinates: "@ + num(k as int) + " point(s) moved"@),
        StatusNote::NoMissingExtremes => Some("No missing extremes"@),
        StatusNote::CopiedContours(k) => Some("Copied "@ + num(k as int) + " contours"@),
        StatusNote::Cancelled => Some("Cancelled"@),
        StatusNote::AddedGlyph(g) => Some("Added "@ + g@),
        StatusNote::RemovedGlyph(g) => Some("Removed "@ + g@),
        StatusNote::SelectGlyphToRemove => Some("Select a glyph to remove"@),
        StatusNote::DuplicatedGlyph(base, g) => Some("Duplicated "@ + base@ + " as "@ + g@),
        StatusNote::ShapeSwitchRemoved(g) => Some("Shape switch removed for "@ + g@),
        StatusNote::ShapeSwitchNeedsDesignspace => Some("Shape switches need a designspace project"@),
        StatusNote::SwitchOffAxis(_) => None,
        StatusNote::ShapeSwitchAdded(_, _, _) => None,
        StatusNote::ColorFormat => Some("Color: use #RRGGBB or #RRGGBBAA"@),
        StatusNote::ColorInUse => Some("Color is used by a layer · remove the layer first"@),
        StatusNote::Sample(s) => Some("Sample: "@ + s@),
        StatusNote::Reinterpolated(g) => Some(g@ + ": reinterpolated from the other masters"@),
        StatusNote::Text(s) => Some(s@),
        StatusNote::ConvertedCurves(cubic, k) => {
            let kind = if cubic { "cubic"@ } else { "quadratic"@ };
            if k == 0 {
                Some("Nothing to convert to "@ + kind)
            } else {
                Some("Converted to "@ + kind + " in "@ + num(k as int) + " master(s)"@)
            }
        },
        StatusNote::CornerApplied(c, k) => Some(c@ + " applied in "@ + num(k as int) + " master(s)"@),
        StatusNote::NoCornerApplied(c) => Some("No corner applied · needs a "@ + c@ + " glyph and a line corner"@),
        StatusNote::MasksBaked(k) => if k == 0 {
            Some("No masks to bake"@)
        } else {
            Some("Masks baked in "@ + num(k as int) + " master(s)"@)
        },
        StatusNote::IntermediateNeedsDesignspace => Some("Intermediate layers need a designspace project"@),
        StatusNote::AxisMapNeedsDesignspace => Some("Axis mappings need a designspace project"@),
        StatusNote::InstancesNeedDesignspace => Some("Instances need a designspace project"@),
        StatusNote::InstanceRenamed(s) => Some("Renamed instance to "@ + s@),
        StatusNote::InstanceAdded(s) => Some("Added instance "@ + s@),
        StatusNote::AxisMapped(_, _) => None,
        StatusNote::IntermediateOffMaster => Some("Move the axes off a master first: the intermediate freezes that location"@),
        StatusNote::IntermediateAdded(l, g) => Some("Intermediate "@ + l@ + " added for "@ + g@),
        StatusNote::GradientNeedsV1 => Some("Gradient: convert to v1 first (To v1)"@),
        StatusNote::NoColorLayers => Some("No color layers to convert"@),
        StatusNote::SmartPart(_, _, _, _) => None,
        StatusNote::SmartValueHelp => Some("Smart value: 30 or Height=30"@),
        StatusNote::NotSmart => Some("Selected component's base is not smart (or no such axis)"@),
        StatusNote::SmartValueSet(_, _) => None,
        StatusNote::ColrV1Written(k) => if k == 0 {
            Some("No color layers to convert"@)
        } else {
            Some("COLRv1: "@ + num(k as int) + " glyph entr(ies) written"@)
        },
        StatusNote::Gradient(row, stop, k) => if k == 0 {
            Some("Gradient: convert to v1 first (To v1)"@)
        } else {
            Some("Layer "@ + num(row as int) + ": linear gradient to color "@ + num(stop as int) + " in "@
                + num(k as int) + " master(s)"@)
        },
        StatusNote::NothingToGenerate => Some("Nothing to generate from glyph names"@),
        StatusNote::OpenedNodes(l) => Some("Opened "@ + l@),
        StatusNote::NodesRan(ran, unchanged) => Some("Ran "@ + num(ran as int) + " nodes, "@ + num(unchanged as int)
            + " unchanged"@),
        StatusNote::NodesFailed(k) => Some(num(k as int) + " nodes failed"@),
        StatusNote::NodesRunning => Some("Already running"@),
        StatusNote::SaveFailed(v) => Some("Save failed: "@ + joined_with(texts(v@), "; "@)),
        StatusNote::NothingToSave => Some("Nothing to save"@),
        StatusNote::Saved(v) => Some("Saved "@ + joined_with(texts(v@), ", "@)),
        StatusNote::NewFont => Some("New font · Save As… picks where it lives on disk"@),
        StatusNote::GeneratedMissing(k) => Some("Added "@ + num(k as int) + " missing glyph"@ + plural_s(k as int)),
        StatusNote::ModelRan(task, g, moved, points, advance) => Some(task@ + " on "@ + g@ + ": "@
            + num(moved as int) + "/"@ + num(points as int) + " points moved, advance "@ + signed(advance as int)
            + ". Undo to reject."@),
        StatusNote::ModelProposed(k, kept) => Some(num(k as int) + " glyphs proposed ("@ + num(kept as int)
            + " keep structure). Install or discard in the panel."@),
        StatusNote::ModelFailed(e) => Some("font-ml: "@ + e@),
        StatusNote::NodeProblems(l, k) => Some(l@ + ": "@ + num(k as int) + " problems"@),
        StatusNote::ModelChosen => Some("Model chosen"@),
        StatusNote::ModelError(e) => Some("Model: "@ + e@),
        StatusNote::OpenGlyphFirst => Some("Open a glyph first"@),
        StatusNote::ChooseModelFirst => Some("Choose a model first"@),
        StatusNote::StillAnswering => Some("The model is still answering"@),
        StatusNote::NoChatModel => Some("No chat model: put a folder with a .gguf and tokenizer.json under ~/.runebender/models"@),
        StatusNote::CoreMissing => Some("runebender-core not found: cargo install --git https://github.com/eliheuer/runebender-core, or set RUNEBENDER_CORE"@),
        StatusNote::OpenFontFirst => Some("Open a font first"@),
        StatusNote::FontMlMissing => Some("font-ml not found: cargo install --git https://github.com/eliheuer/font-ml, or set RUNEBENDER_FONT_ML"@),
        StatusNote::ModelRunning => Some("A model is already running"@),
        StatusNote::SaveBeforeRunning => Some("Save the font before running a model"@),
        StatusNote::RunningTask(task, g) => match g {
            Some(name) => Some("Running "@ + task@ + " on "@ + name@ + "…"@),
            None => Some("Running "@ + task@ + " on every glyph…"@),
        },
        StatusNote::FontMlNotFound => Some("font-ml not found"@),
        StatusNote::OneMaster => Some("Nothing to score against: one master"@),
        StatusNote::Scoring(g) => Some("Scoring "@ + g@ + "…"@),
        StatusNote::ModelScore(_, _, _) => None,
        StatusNote::NotPointCompatible => Some("Masters are not point-compatible here"@),
        StatusNote::ComponentAnchorLocked => Some("Component is anchor-locked · unlock it in the Selection panel to move it"@),
        StatusNote::InstanceView => Some("Interpolated instance · move an axis onto a master to edit"@),
        StatusNote::InstalledProposal(task, k, skipped) => Some("Installed "@ + num(k as int) + " glyphs from "@ + task@
            + (if skipped == 0 { Seq::empty() } else { ", "@ + num(skipped as int) + " skipped"@ })
            + ". Undo takes them back one at a time."@),
        StatusNote::DiscardedProposal(k) => Some("Discarded "@ + num(k as int) + " proposed glyphs"@),
        StatusNote::CompiledClean => Some("Compiled clean · shaping updated"@),
        StatusNote::SavedNotCompiling(first) => Some("Saved, but does not compile: "@ + first@),
        StatusNote::Applied => Some("Applied"@),
        StatusNote::GeneratedFeatures(tags) => Some("Generated "@ + joined_with(texts(tags@), ", "@) + " · review and Apply"@),
        StatusNote::MetricsInSync => Some("Metrics keys: everything in sync"@),
        StatusNote::MetricsAdjusted(k) => if k == 0 {
            Some("Metrics keys: everything in sync"@)
        } else {
            Some("Metrics keys: "@ + num(k as int) + " sidebearings adjusted"@)
        },
        StatusNote::SelectGlyphsFirst => Some("Select glyphs in the grid first"@),
        StatusNote::SentToBackground => Some("Sent to background"@),
        StatusNote::NothingEncodedToCopy => Some("Nothing encoded to copy"@),
        StatusNote::CopiedCharacters(k) => Some("Copied "@ + num(k as int) + " character"@ + plural_s(k as int)),
        StatusNote::CopiedTo(l) => Some("Copied to "@ + l@),
        StatusNote::ColorLayerAdded(l) => Some("Color layer "@ + l@ + " added"@),
        StatusNote::AddPaletteColorFirst => Some("Add a palette color first (hex field)"@),
        StatusNote::GroupMembersAdded(g, k) => Some("@"@ + g@ + ": "@ + num(k as int) + " membership(s) added"@),
        StatusNote::SaveBeforeExport => Some("Save the font before exporting"@),
        StatusNote::ExportingThrough(l) => Some("Exporting through "@ + l@ + "…"@),
        StatusNote::FontcMissing => Some("fontc not found: cargo install fontc"@),
        StatusNote::Exporting(stem) => Some("Exporting "@ + stem@ + ".ttf…"@),
        StatusNote::Exported(s) => Some(s@),
        StatusNote::ExportFailed(e) => Some("Export failed: "@ + e@),
    }
}

fn put(v: &mut Vec<char>, s: &str)
    ensures
        final(v)@ == old(v)@ + s@,
{
    let r = joined(v, &chars_of(s));
    *v = r;
}

fn put_num(v: &mut Vec<char>, n: u128)
    ensures
        final(v)@ == old(v)@ + dec(n as nat),
{
    let r = joined(v, &decimal(n));
    *v = r;
}

fn put_signed(v: &mut Vec<char>, n: i64)
    ensures
        final(v)@ == old(v)@ + signed(n as int),
{
    if n >= 0 {
        put(v, "+");
        put_num(v, n as u128);
    } else {
        put(v, "-");
        let m: i128 = -(n as i128);
        put_num(v, m as u128);
    }
}

fn put_all(v: &mut Vec<char>, items: &Vec<String>, sep: &str)
    ensures
        final(v)@ == old(v)@ + joined_with(texts(items@), sep@),
{
    let ghost start = v@;
    let mut i: usize = 0;
    while i < items.len()
        invariant
            i <= items@.len(),
            v@ == start + joined_with(texts(items@.subrange(0, i as int)), sep@),
        decreases items@.len() - i,
    {
        let ghost before = v@;
        let ghost done = texts(items@.subrange(0, i as int));
        let ghost next = texts(items@.subrange(0, i + 1));
        assert(next.drop_last() =~= done);
        assert(next.last() == items@[i as int]@);
        if i > 0 {
            put(v, sep);
        }
        put(v, items[i].as_str());
        i += 1;
        proof {
            if i == 1 {
                assert(done.len() == 0);
                assert(v@ =~= start + next.last());
            } else {
                assert(v@ =~= start + (joined_with(done, sep@) + sep@ + next.last()));
            }
        }
    }
    assert(items@.subrange(0, items@.len() as int) =~= items@);
}

impl StatusNote {
    /// What the status bar says for this note; none for the notes that
    /// show a floating-point number.
    pub fn text(&self) -> (r: Option<String>)
        ensures
            match r {
                Some(s) => note_text(*self) == Some(s@),
                None => note_text(*self) is None,
            },
    {
        let mut v: Vec<char> = Vec::new();
        match self {
            StatusNote::NoBackgroundToSwap => put(&mut v, "No background to swap"),
            StatusNote::TidyPaths(k) => {
                put(&mut v, "Tidy up Paths: ");
                put_num(&mut v, *k as u128);
                put(&mut v, " point(s) removed");
            },
            StatusNote::CorrectPathDirection(k) => {
                put(&mut v, "Correct Path Direction: ");
                put_num(&mut v, *k as u128);
                put(&mut v, " contour(s) reversed");
            },
            StatusNote::RoundCoordinates(k) => {
                put(&mut v, "Round Coordinates: ");
                put_num(&mut v, *k as u128);
                put(&mut v, " point(s) moved");
            },
            StatusNote::NoMissingExtremes => put(&mut v, "No missing extremes"),
            StatusNote::CopiedContours(k) => {
                put(&mut v, "Copied ");
                put_num(&mut v, *k as u128);
                put(&mut v, " contours");
            },
            StatusNote::Cancelled => put(&mut v, "Cancelled"),
            StatusNote::AddedGlyph(g) => {
                put(&mut v, "Added ");
                put(&mut v, g.as_str());
            },
            StatusNote::RemovedGlyph(g) => {
                put(&mut v, "Removed ");
                put(&mut v, g.as_str());
            },
            StatusNote::SelectGlyphToRemove => put(&mut v, "Select a glyph to remove"),
            StatusNote::DuplicatedGlyph(base, g) => {
                put(&mut v, "Duplicated ");
                put(&mut v, base.as_str());
                put(&mut v, " as ");
                put(&mut v, g.as_str());
            },
            StatusNote::ShapeSwitchRemoved(g) => {
                put(&mut v, "Shape switch removed for ");
                put(&mut v, g.as_str());
            },
            StatusNote::ShapeSwitchNeedsDesignspace => put(&mut v, "Shape switches need a designspace project"),
            StatusNote::SwitchOffAxis(_) => {
                return None;
            },
            StatusNote::ShapeSwitchAdded(_, _, _) => {
                return None;
            },
            StatusNote::ColorFormat => put(&mut v, "Color: use #RRGGBB or #RRGGBBAA"),
            StatusNote::ColorInUse => put(&mut v, "Color is used by a layer · remove the layer first"),
            StatusNote::Sample(s) => {
                put(&mut v, "Sample: ");
                put(&mut v, s.as_str());
            },
            StatusNote::Reinterpolated(g) => {
                put(&mut v, g.as_str());
                put(&mut v, ": reinterpolated from the other masters");
            },
            StatusNote::Text(s) => put(&mut v, s.as_str()),
            StatusNote::ConvertedCurves(cubic, k) => {
                if *k == 0 {
                    put(&mut v, "Nothing to convert to ");
                } else {
                    put(&mut v, "Converted to ");
                }
                if *cubic {
                    put(&mut v, "cubic");
                } else {
                    put(&mut v, "quadratic");
                }
                if *k != 0 {
                    put(&mut v, " in ");
                    put_num(&mut v, *k as u128);
                    put(&mut v, " master(s)");
                }
            },
            StatusNote::CornerApplied(c, k) => {
                put(&mut v, c.as_str());
                put(&mut v, " applied in ");
                put_num(&mut v, *k as u128);
                put(&mut v, " master(s)");
            },
            StatusNote::NoCornerApplied(c) => {
                put(&mut v, "No corner applied · needs a ");
                put(&mut v, c.as_str());
                put(&mut v, " glyph and a line corner");
            },
            StatusNote::MasksBaked(k) => {
                if *k == 0 {
                    put(&mut v, "No masks to bake");
                } else {
                    put(&mut v, "Masks baked in ");
                    put_num(&mut v, *k as u128);
                    put(&mut v, " master(s)");
                }
            },
            StatusNote::IntermediateNeedsDesignspace => put(&mut v, "Intermediate layers need a designspace project"),
            StatusNote::AxisMapNeedsDesignspace => put(&mut v, "Axis mappings need a designspace project"),
            StatusNote::InstancesNeedDesignspace => put(&mut v, "Instances need a designspace project"),
            StatusNote::InstanceRenamed(s) => {
                put(&mut v, "Renamed instance to ");
                put(&mut v, s.as_str());
            },
            StatusNote::InstanceAdded(s) => {
                put(&mut v, "Added instance ");
                put(&mut v, s.as_str());
            },
            StatusNote::AxisMapped(_, _) => {
                return None;
            },
            StatusNote::IntermediateOffMaster => put(&mut v, "Move the axes off a master first: the intermediate freezes that location"),
            StatusNote::IntermediateAdded(l, g) => {
                put(&mut v, "Intermediate ");
                put(&mut v, l.as_str());
                put(&mut v, " added for ");
                put(&mut v, g.as_str());
            },
            StatusNote::GradientNeedsV1 => put(&mut v, "Gradient: convert to v1 first (To v1)"),
            StatusNote::NoColorLayers => put(&mut v, "No color layers to convert"),
            StatusNote::SmartPart(_, _, _, _) => {
                return None;
            },
            StatusNote::SmartValueHelp => put(&mut v, "Smart value: 30 or Height=30"),
            StatusNote::NotSmart => put(&mut v, "Selected component's base is not smart (or no such axis)"),
            StatusNote::SmartValueSet(_, _) => {
                return None;
            },
            StatusNote::ColrV1Written(k) => {
                if *k == 0 {
                    put(&mut v, "No color layers to convert");
                } else {
                    put(&mut v, "COLRv1: ");
                    put_num(&mut v, *k as u128);
                    put(&mut v, " glyph entr(ies) written");
                }
            },
            StatusNote::Gradient(row, stop, k) => {
                if *k == 0 {
                    put(&mut v, "Gradient: convert to v1 first (To v1)");
                } else {
                    put(&mut v, "Layer ");
                    put_num(&mut v, *row as u128);
                    put(&mut v, ": linear gradient to color ");
                    put_num(&mut v, *stop as u128);
                    put(&mut v, " in ");
                    put_num(&mut v, *k as u128);
                    put(&mut v, " master(s)");
                }
            },
            StatusNote::NothingToGenerate => put(&mut v, "Nothing to generate from glyph names"),
            StatusNote::OpenedNodes(l) => {
                put(&mut v, "Opened ");
                put(&mut v, l.as_str());
            },
            StatusNote::NodesRan(ran, unchanged) => {
                put(&mut v, "Ran ");
                put_num(&mut v, *ran as u128);
                put(&mut v, " nodes, ");
                put_num(&mut v, *unchanged as u128);
                put(&mut v, " unchanged");
            },
            StatusNote::NodesFailed(k) => {
                put_num(&mut v, *k as u128);
                put(&mut v, " nodes failed");
            },
            StatusNote::NodesRunning => put(&mut v, "Already running"),
            StatusNote::SaveFailed(items) => {
                put(&mut v, "Save failed: ");
                put_all(&mut v, items, "; ");
            },
            StatusNote::NothingToSave => put(&mut v, "Nothing to save"),
            StatusNote::Saved(items) => {
                put(&mut v, "Saved ");
                put_all(&mut v, items, ", ");
            },
            StatusNote::NewFont => put(&mut v, "New font · Save As… picks where it lives on disk"),
            StatusNote::GeneratedMissing(k) => {
                put(&mut v, "Added ");
                put_num(&mut v, *k as u128);
                put(&mut v, " missing glyph");
                if *k != 1 {
                    put(&mut v, "s");
                }
            },
            StatusNote::ModelRan(task, g, moved, points, advance) => {
                put(&mut v, task.as_str());
                put(&mut v, " on ");
                put(&mut v, g.as_str());
                put(&mut v, ": ");
                put_num(&mut v, *moved as u128);
                put(&mut v, "/");
                put_num(&mut v, *points as u128);
                put(&mut v, " points moved, advance ");
                put_signed(&mut v, *advance);
                put(&mut v, ". Undo to reject.");
            },
            StatusNote::ModelProposed(k, kept) => {
                put_num(&mut v, *k as u128);
                put(&mut v, " glyphs proposed (");
                put_num(&mut v, *kept as u128);
                put(&mut v, " keep structure). Install or discard in the panel.");
            },
            StatusNote::ModelFailed(e) => {
                put(&mut v, "font-ml: ");
                put(&mut v, e.as_str());
            },
            StatusNote::NodeProblems(l, k) => {
                put(&mut v, l.as_str());
                put(&mut v, ": ");
                put_num(&mut v, *k as u128);
                put(&mut v, " problems");
            },
            StatusNote::ModelChosen => put(&mut v, "Model chosen"),
            StatusNote::ModelError(e) => {
                put(&mut v, "Model: ");
                put(&mut v, e.as_str());
            },
            StatusNote::OpenGlyphFirst => put(&mut v, "Open a glyph first"),
            StatusNote::ChooseModelFirst => put(&mut v, "Choose a model first"),
            StatusNote::StillAnswering => put(&mut v, "The model is still answering"),
            StatusNote::NoChatModel => put(&mut v, "No chat model: put a folder with a .gguf and tokenizer.json under ~/.runebender/models"),
            StatusNote::CoreMissing => put(&mut v, "runebender-core not found: cargo install --git https://github.com/eliheuer/runebender-core, or set RUNEBENDER_CORE"),
            StatusNote::OpenFontFirst => put(&mut v, "Open a font first"),
            StatusNote::FontMlMissing => put(&mut v, "font-ml not found: cargo install --git https://github.com/eliheuer/font-ml, or set RUNEBENDER_FONT_ML"),
            StatusNote::ModelRunning => put(&mut v, "A model is already running"),
            StatusNote::SaveBeforeRunning => put(&mut v, "Save the font before running a model"),
            StatusNote::RunningTask(task, g) => {
                put(&mut v, "Running ");
                put(&mut v, task.as_str());
                match g {
                    Some(name) => {
                        put(&mut v, " on ");
                        put(&mut v, name.as_str());
                        put(&mut v, "…");
                    },
                    None => put(&mut v, " on every glyph…"),
                }
            },
            StatusNote::FontMlNotFound => put(&mut v, "font-ml not found"),
            StatusNote::OneMaster => put(&mut v, "Nothing to score against: one master"),
            StatusNote::Scoring(g) => {
                put(&mut v, "Scoring ");
                put(&mut v, g.as_str());
                put(&mut v, "…");
            },
            StatusNote::ModelScore(_, _, _) => {
                return None;
            },
            StatusNote::NotPointCompatible => put(&mut v, "Masters are not point-compatible here"),
            StatusNote::ComponentAnchorLocked => put(&mut v, "Component is anchor-locked · unlock it in the Selection panel to move it"),
            StatusNote::InstanceView => put(&mut v, "Interpolated instance · move an axis onto a master to edit"),
            StatusNote::InstalledProposal(task, k, skipped) => {
                put(&mut v, "Installed ");
                put_num(&mut v, *k as u128);
                put(&mut v, " glyphs from ");
                put(&mut v, task.as_str());
                if *skipped != 0 {
                    put(&mut v, ", ");
                    put_num(&mut v, *skipped as u128);
                    put(&mut v, " skipped");
                }
                put(&mut v, ". Undo takes them back one at a time.");
            },
            StatusNote::DiscardedProposal(k) => {
                put(&mut v, "Discarded ");
                put_num(&mut v, *k as u128);
                put(&mut v, " proposed glyphs");
            },
            StatusNote::CompiledClean => put(&mut v, "Compiled clean · shaping updated"),
            StatusNote::SavedNotCompiling(first) => {
                put(&mut v, "Saved, but does not compile: ");
                put(&mut v, first.as_str());
            },
            StatusNote::Applied => put(&mut v, "Applied"),
            StatusNote::GeneratedFeatures(tags) => {
                put(&mut v, "Generated ");
                put_all(&mut v, tags, ", ");
                put(&mut v, " · review and Apply");
            },
            StatusNote::MetricsInSync => put(&mut v, "Metrics keys: everything in sync"),
            StatusNote::MetricsAdjusted(k) => {
                if *k == 0 {
                    put(&mut v, "Metrics keys: everything in sync");
                } else {
                    put(&mut v, "Metrics keys: ");
                    put_num(&mut v, *k as u128);
                    put(&mut v, " sidebearings adjusted");
                }
            },
            StatusNote::SelectGlyphsFirst => put(&mut v, "Select glyphs in the grid first"),
            StatusNote::SentToBackground => put(&mut v, "Sent to background"),
            StatusNote::NothingEncodedToCopy => put(&mut v, "Nothing encoded to copy"),
            StatusNote::CopiedCharacters(k) => {
                put(&mut v, "Copied ");
                put_num(&mut v, *k as u128);
                put(&mut v, " character");
                if *k != 1 {
                    put(&mut v, "s");
                }
            },
            StatusNote::CopiedTo(l) => {
                put(&mut v, "Copied to ");
                put(&mut v, l.as_str());
            },
            StatusNote::ColorLayerAdded(l) => {
                put(&mut v, "Color layer ");
                put(&mut v, l.as_str());
                put(&mut v, " added");
            },
            StatusNote::AddPaletteColorFirst => put(&mut v, "Add a palette color first (hex field)"),
            StatusNote::GroupMembersAdded(g, k) => {
                put(&mut v, "@");
                put(&mut v, g.as_str());
                put(&mut v, ": ");
                put_num(&mut v, *k as u128);
                put(&mut v, " membership(s) added");
            },
            StatusNote::SaveBeforeExport => put(&mut v, "Save the font before exporting"),
            StatusNote::ExportingThrough(l) => {
                put(&mut v, "Exporting through ");
                put(&mut v, l.as_str());
                put(&mut v, "…");
            },
            StatusNote::FontcMissing => put(&mut v, "fontc not found: cargo install fontc"),
            StatusNote::Exporting(stem) => {
                put(&mut v, "Exporting ");
                put(&mut v, stem.as_str());
                put(&mut v, ".ttf…");
            },
            StatusNote::Exported(s) => put(&mut v, s.as_str()),
            StatusNote::ExportFailed(e) => {
                put(&mut v, "Export failed: ");
                put(&mut v, e.as_str());
            },
        }
        Some(string_of(&v))
    }
}

} // verus!
