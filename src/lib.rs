//! Scale-of-the-day fretboard diagrams: resolves a musical scale from a root
//! note and an interval pattern, and lays it out as ASCII art over a window of
//! frets for a given instrument tuning.

pub mod color;
pub mod fret_board;
pub mod notes;
pub mod params;
pub mod scales;
pub mod text;
pub mod tunings;

pub use color::format_with_color;
pub use fret_board::{
    build_fret_board, build_fret_board_string, build_fret_num_string, build_row, format_fret_num, format_note,
    FRET_SPAN, NUM_FRETS,
};
pub use notes::{accidental_to_note, get_flat_accidentals, note_to_string, Accidental, Note, NUM_NOTES};
pub use params::{Format, Params};
pub use scales::Scale;
pub use tunings::{get_notes_by_tuning, tuning_to_string, Tuning};
