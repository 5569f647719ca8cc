//! A headless terminal emulator model: a grid of cells driven by the byte
//! stream of a pseudo-terminal.
//!
//! A [`Terminal`] takes the bytes that an application writes, has the `vte`
//! parser split them into events, and applies each event to its
//! [`TerminalState`]: two [`Screen`]s of [`Line`]s of [`Cell`]s, a cursor, a
//! pen, a scroll region, tab stops and mode flags. What the application is
//! owed in return comes back as [`AnswerBack`]s. Key presses and pointer
//! events are translated for the application and the host.
//!
//! Every type has a view, and `model` says over those views what each
//! operation does. The functions are verified against that, and `laws`
//! holds what follows for every state.

pub mod cell;
pub mod color;
pub mod csi;
pub mod glyph;
pub mod keys;
pub mod laws;
pub mod line;
pub mod model;
pub mod mouse;
pub mod parser;
pub mod screen;
pub mod terminal;
pub mod terminalstate;
pub mod text;

pub use crate::cell::{Cell, CellAttributes, Intensity, Underline};
pub use crate::csi::Position;
pub use crate::glyph::GlyphInfo;
pub use crate::keys::{KeyCode, KeyModifiers};
pub use crate::line::Line;
pub use crate::model::CursorPosition;
pub use crate::screen::{PhysRowIndex, Screen, VisibleRowIndex};
pub use crate::terminal::Terminal;
pub use crate::terminalstate::{AnswerBack, Hyperlink, TerminalState};
