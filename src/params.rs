use vstd::prelude::*;

use crate::notes::Note;
use crate::scales::{resolve, resolved, Scale};
use crate::tunings::Tuning;

verus! {

/// How note labels are shown: flat or sharp spelling, with or without colour.
#[derive(Copy, Clone, Debug, PartialEq, Eq, Structural)]
pub struct Format {
    pub flat: bool,
    pub colored: bool,
}

/// Everything a diagram is drawn from.
pub struct Params {
    pub tuning: Tuning,
    pub root_note: Note,
    pub scale: Scale,
    pub starting_fret: usize,
    pub notes_in_scale: Vec<(Note, usize)>,
    pub format: Format,
}

impl Params {
    /// The parameters of a diagram of `scale` from `root_note`, with the
    /// scale resolved from the root.
    pub fn new(
        tuning: Tuning,
        root_note: Note,
        scale: Scale,
        starting_fret: usize,
        format: Format,
    ) -> (r: Params)
        ensures
            r.tuning == tuning,
            r.root_note == root_note,
            r.scale == scale,
            r.starting_fret == starting_fret,
            r.format == format,
            r.notes_in_scale@ == resolved(root_note, scale.spec_steps()),
    {
        let steps = scale.get_steps();
        let notes_in_scale = resolve(root_note, steps.as_slice());
        Params { tuning, root_note, scale, starting_fret, notes_in_scale, format }
    }
}

/// The values a random pick is drawn from: those given on the command line,
/// where any were, else every value.
pub fn candidates<T>(given: Option<Vec<T>>, all: Vec<T>) -> (r: Vec<T>)
    ensures
        r@ == match given {
            Some(v) => v@,
            None => all@,
        },
{
    match given {
        Some(v) => v,
        None => all,
    }
}

} // verus!
