//! The decision layer of a font editor's workspace: which glyph is open,
//! which edit tabs exist, what a menu command changes in the project model,
//! and which operations it asks the outline engine to carry out.
//!
//! Every command is a function from the workspace state (and, where the
//! outline engine has already answered, that answer) to the next state and
//! the list of engine operations to perform, in order.

pub mod model;
pub mod steps;
pub mod names;
pub mod session;
pub mod points;
pub mod edits;
pub mod text;
pub mod project;
pub mod glyph_data;
pub mod chat;
pub mod decimal;
pub mod tasks;
pub mod nodes;
pub mod glyphs;
pub mod layers;
pub mod effects;
pub mod color;
pub mod designspace;
pub mod features;
pub mod export;
pub mod laws;
pub mod keys;
pub mod saving;
pub mod generate;
pub mod outline;
pub mod local_models;
pub mod switches;
pub mod text_keys;
pub mod smart;
pub mod grid;
pub mod press;
pub mod notes;
