# runebender_shell

The decision layer of a font editor's workspace, verified with Verus.

A command takes the workspace state (and, once the outline engine or a
tool has answered, that answer) to the next state and the list of
operations the engine is asked to perform, in order. Every public
function states that relation in its `ensures`.

Layout:

- `src/model.rs`: the workspace, its project, and the engine operations.
- `src/session.rs`, `src/keys.rs`, `src/text_keys.rs`, `src/points.rs`,
  `src/press.rs`: open glyph, edit tabs, undo requests, keys, point
  selection, and what a press of the select tool selects and drags.
- `src/edits.rs`, `src/effects.rs`, `src/outline.rs`: path commands, each
  a request and a `finish_` step that settles on the engine's answer.
- `src/glyphs.rs`, `src/generate.rs`, `src/glyph_data.rs`, `src/layers.rs`,
  `src/color.rs`, `src/designspace.rs`, `src/switches.rs`, `src/smart.rs`,
  `src/features.rs`: glyph list, layers, color, designspace, features.
- `src/saving.rs`, `src/export.rs`: save, Save As, new font, export.
- `src/chat.rs`, `src/tasks.rs`, `src/local_models.rs`, `src/nodes.rs`:
  the chat pane, model runs, and nodes files.
- `src/grid.rs`: the overview's code point labels and joining matrix.
- `src/notes.rs`: what the status bar says for each note.
- `src/laws.rs`: properties that span several operations.
- `app/`: the command-line entry (it loads a project, then runs commands
  read from standard input: keys, tabs, masters, copy and paste, model
  runs, export, nodes runs, chat), file and process I/O, JSON reading,
  and the floating-point parts. Operations meant for the outline engine
  are printed, not performed.
