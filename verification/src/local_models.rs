//! Choosing a local model, and scoring it on the open glyph against the
//! master it tries to predict.
use vstd::prelude::*;
use crate::model::{EngineOp, Mode, StatusNote, Workspace};
use crate::nodes::{file_name_of, path_file_name};
use crate::text::{chars_of, joined, string_of};

verus! {

/// What a model's `config.json` says of it: its kind, and its layers and
/// dimensions as the file writes them.
#[derive(Debug)]
pub struct ModelConfig {
    pub kind: Option<String>,
    pub layers: Option<String>,
    pub dims: Option<String>,
}

/// The line that says what a model is: `<name>: <kind>`, then
/// `, <layers> layers × <dims>` when the config gives both. The name is
/// the directory's, `model` when it has none; the kind is `outline` when
/// the config names none.
pub open spec fn model_summary(dir: Seq<char>, c: ModelConfig) -> Seq<char> {
    let name = match file_name_of(dir) { Some(n) => n, None => "model"@ };
    let kind = match c.kind { Some(k) => k@, None => "outline"@ };
    let shape = match (c.layers, c.dims) {
        (Some(l), Some(d)) => ", "@ + l@ + " layers × "@ + d@,
        _ => Seq::empty(),
    };
    name + ": "@ + kind + shape
}

/// A scoring run for the model tool: the tool, the model, the active
/// master's source, the source of the master it predicts, the glyph, and
/// the bits of the strength.
#[derive(Debug)]
pub struct ScoreRequest {
    pub binary: String,
    pub model: String,
    pub regular: String,
    pub bold: String,
    pub glyph: String,
    pub strength_bits: u64,
}

impl Workspace {
    /// Take the model in `dir`, once its config was read, or not. A model
    /// read becomes the chosen one, with its summary line and no score
    /// yet, and the installed models are looked for again; a failure is
    /// shown.
    pub fn load_model(&mut self, dir: String, config: Result<ModelConfig, String>) -> (ops: Vec<EngineOp>)
        ensures
            match config {
                Err(e) => *final(self) == (Workspace { status_note: Some(StatusNote::ModelError(e)), ..*old(self) })
                    && ops@.len() == 0,
                Ok(c) => {
                    &&& final(self).models.summary matches Some(s) && s@ == model_summary(dir@, c)
                    &&& *final(self) == (Workspace {
                        models: crate::model::ModelsState {
                            summary: final(self).models.summary,
                            dir: Some(dir),
                            score: None,
                            ..old(self).models
                        },
                        status_note: Some(StatusNote::ModelChosen),
                        ..*old(self)
                    })
                    &&& ops@ == seq![EngineOp::RescanModels]
                },
            },
    {
        let c = match config {
            Ok(c) => c,
            Err(e) => {
                self.status_note = Some(StatusNote::ModelError(e));
                return Vec::new();
            },
        };
        let name = match path_file_name(dir.as_str()) {
            Some(n) => chars_of(n.as_str()),
            None => chars_of("model"),
        };
        let kind = match &c.kind {
            Some(k) => chars_of(k.as_str()),
            None => chars_of("outline"),
        };
        let a = joined(&name, &chars_of(": "));
        let mut line = joined(&a, &kind);
        if let (Some(l), Some(d)) = (&c.layers, &c.dims) {
            let b = joined(&chars_of(", "), &chars_of(l.as_str()));
            let e = joined(&b, &chars_of(" layers × "));
            let shape = joined(&e, &chars_of(d.as_str()));
            line = joined(&line, &shape);
        } else {
            assert(line@ + Seq::<char>::empty() =~= line@);
        }
        self.models.summary = Some(string_of(&line));
        self.models.dir = Some(dir);
        self.models.score = None;
        self.status_note = Some(StatusNote::ModelChosen);
        let mut ops = Vec::new();
        ops.push(EngineOp::RescanModels);
        ops
    }

    /// Score the chosen model on the open glyph against the master it
    /// tries to predict: the last master when the first is active, the
    /// first otherwise. `binary` is where the model tool is, when it was
    /// found. The run, or why there is none: a glyph must be open, and a
    /// second master there; with no model chosen, or no font, nothing
    /// happens.
    pub fn score_request(&mut self, binary: Option<String>) -> (r: Option<ScoreRequest>)
        requires
            old(self).refs_ok(),
        ensures
            !(old(self).mode is Editor) ==> r is None
                && *final(self) == (Workspace { status_note: Some(StatusNote::OpenGlyphFirst), ..*old(self) }),
            (old(self).mode is Editor && old(self).models.dir is None) ==> r is None && *final(self) == *old(self),
            (old(self).mode is Editor && old(self).models.dir is Some && binary is None) ==> r is None
                && *final(self) == (Workspace { status_note: Some(StatusNote::FontMlNotFound), ..*old(self) }),
            (old(self).mode is Editor && old(self).models.dir is Some && binary is Some && old(self).project is None)
                ==> r is None && *final(self) == *old(self),
            (old(self).mode is Editor && old(self).models.dir is Some && binary is Some
                && (old(self).project matches Some(p) && p.masters@.len() < 2)) ==> r is None
                && *final(self) == (Workspace { status_note: Some(StatusNote::OneMaster), ..*old(self) }),
            (old(self).mode is Editor && old(self).models.dir is Some && binary is Some
                && (old(self).project matches Some(p) && p.masters@.len() >= 2)) ==> {
                let p = old(self).project->0;
                let i = old(self).mode->0;
                let target = if p.active == 0 { p.masters@.len() - 1 } else { 0 };
                let name = p.active_master().glyphs@[i as int].name;
                &&& r == Some(ScoreRequest {
                    binary: binary->0,
                    model: old(self).models.dir->0,
                    regular: p.active_master().source_path,
                    bold: p.masters@[target].source_path,
                    glyph: name,
                    strength_bits: old(self).models.strength_bits,
                })
                &&& *final(self) == (Workspace { status_note: Some(StatusNote::Scoring(name)), ..*old(self) })
            },
    {
        let Mode::Editor(index) = self.mode else {
            self.status_note = Some(StatusNote::OpenGlyphFirst);
            return None;
        };
        let Some(model) = self.models.dir.clone() else {
            return None;
        };
        let Some(binary) = binary else {
            self.status_note = Some(StatusNote::FontMlNotFound);
            return None;
        };
        let Some(p) = &self.project else {
            return None;
        };
        if p.masters.len() < 2 {
            self.status_note = Some(StatusNote::OneMaster);
            return None;
        }
        let target = if p.active == 0 { p.masters.len() - 1 } else { 0 };
        let name = p.masters[p.active].glyphs[index].name.clone();
        let regular = p.masters[p.active].source_path.clone();
        let bold = p.masters[target].source_path.clone();
        let strength_bits = self.models.strength_bits;
        self.status_note = Some(StatusNote::Scoring(name.clone()));
        Some(ScoreRequest { binary, model, regular, bold, glyph: name, strength_bits })
    }

    /// A scoring run came back: the bits of the model's error and of the
    /// baseline's for `glyph`, none when the masters do not match point
    /// for point, or the tool's complaint. A score is kept and shown.
    pub fn finish_score(&mut self, glyph: String, outcome: Result<Option<(u64, u64)>, String>)
        ensures
            *final(self) == match outcome {
                Ok(Some((m, b))) => Workspace {
                    models: crate::model::ModelsState { score: Some((glyph, m, b)), ..old(self).models },
                    status_note: Some(StatusNote::ModelScore(glyph, m, b)),
                    ..*old(self)
                },
                Ok(None) => Workspace { status_note: Some(StatusNote::NotPointCompatible), ..*old(self) },
                Err(e) => Workspace { status_note: Some(StatusNote::ModelFailed(e)), ..*old(self) },
            },
    {
        match outcome {
            Ok(Some((m, b))) => {
                self.models.score = Some((glyph.clone(), m, b));
                self.status_note = Some(StatusNote::ModelScore(glyph, m, b));
            },
            Ok(None) => self.status_note = Some(StatusNote::NotPointCompatible),
            Err(e) => self.status_note = Some(StatusNote::ModelFailed(e)),
        }
    }

    /// Glyph > Bolden With Model: the glyph the model will run on, once a
    /// model directory is picked; outside the editor the status bar asks
    /// for a glyph first.
    pub fn command_bolden_with_model(&mut self) -> (r: Option<usize>)
        ensures
            old(self).mode matches Mode::Editor(i) ==> r == Some(i) && *final(self) == *old(self),
            !(old(self).mode is Editor) ==> r is None
                && *final(self) == (Workspace { status_note: Some(StatusNote::OpenGlyphFirst), ..*old(self) }),
    {
        match self.mode {
            Mode::Editor(i) => Some(i),
            _ => {
                self.status_note = Some(StatusNote::OpenGlyphFirst);
                None
            },
        }
    }
}

} // verus!
