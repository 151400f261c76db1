use vstd::prelude::*;

use crate::notes::{lemma_index_roundtrip, Note, NUM_NOTES};

verus! {

/// A scale, given by its interval pattern.
#[derive(Copy, Clone, Debug, PartialEq, Eq, Structural)]
pub enum Scale {
    Major,
    HarmonicMinor,
    MelodicMinor,
    NaturalMinor,
    PentatonicMajor,
    PentatonicMinor,
    PentatonicBlues,
    PentatonicNeutral,
    WholeDiminished,
    HalfDiminished,
    Ionian,
    Dorian,
    Phrygian,
    Lydian,
    Mixolydian,
    Aeolian,
    Locrian,
}

/// A valid interval pattern: starts at 0, strictly increasing, every offset
/// below 12.
pub open spec fn steps_wf(steps: Seq<usize>) -> bool {
    &&& steps.len() > 0
    &&& steps[0] == 0
    &&& forall|i: int, j: int| 0 <= i < j < steps.len() ==> steps[i] < steps[j]
    &&& forall|i: int| 0 <= i < steps.len() ==> steps[i] < 12
}

impl Scale {
    /// Semitone offsets of the scale's notes from its root, ascending.
    pub open spec fn spec_steps(self) -> Seq<usize> {
        match self {
            Scale::Major => seq![0, 2, 4, 5, 7, 9, 11],
            Scale::HarmonicMinor => seq![0, 2, 3, 5, 7, 8, 11],
            Scale::MelodicMinor => seq![0, 2, 3, 5, 7, 9, 11],
            Scale::NaturalMinor => seq![0, 2, 3, 5, 7, 8, 10],
            Scale::PentatonicMajor => seq![0, 2, 4, 7, 9],
            Scale::PentatonicMinor => seq![0, 3, 5, 7, 10],
            Scale::PentatonicBlues => seq![0, 3, 5, 6, 7, 10],
            Scale::PentatonicNeutral => seq![0, 2, 5, 7, 10],
            Scale::WholeDiminished => seq![0, 2, 3, 5, 6, 8, 9, 11],
            Scale::HalfDiminished => seq![0, 1, 3, 4, 6, 7, 9, 10],
            Scale::Ionian => seq![0, 2, 4, 5, 7, 9, 11],
            Scale::Dorian => seq![0, 2, 3, 5, 7, 9, 10],
            Scale::Phrygian => seq![0, 1, 3, 5, 7, 8, 10],
            Scale::Lydian => seq![0, 2, 4, 6, 7, 9, 11],
            Scale::Mixolydian => seq![0, 2, 4, 5, 7, 9, 10],
            Scale::Aeolian => seq![0, 2, 3, 5, 7, 8, 10],
            Scale::Locrian => seq![0, 1, 3, 5, 6, 8, 10],
        }
    }

    /// The name under which the scale is shown.
    pub open spec fn spec_name(self) -> Seq<char> {
        match self {
            Scale::Major => "Major"@,
            Scale::HarmonicMinor => "Harmonic Minor"@,
            Scale::MelodicMinor => "Melodic Minor"@,
            Scale::NaturalMinor => "Natural Minor"@,
            Scale::PentatonicMajor => "Pentatonic Major"@,
            Scale::PentatonicMinor => "Pentatonic Minor"@,
            Scale::PentatonicBlues => "Pentatonic Blues"@,
            Scale::PentatonicNeutral => "Pentatonic Neutral"@,
            Scale::WholeDiminished => "Whole Diminished"@,
            Scale::HalfDiminished => "Half Diminished"@,
            Scale::Ionian => "Ionian"@,
            Scale::Dorian => "Dorian"@,
            Scale::Phrygian => "Phrygian"@,
            Scale::Lydian => "Lydian"@,
            Scale::Mixolydian => "Mixolydian"@,
            Scale::Aeolian => "Aeolian"@,
            Scale::Locrian => "Locrian"@,
        }
    }

    /// Semitone offsets of the scale's notes from its root, ascending.
    pub fn get_steps(&self) -> (r: Vec<usize>)
        ensures
            r@ == self.spec_steps(),
    {
        match self {
            Scale::Major => vec![0, 2, 4, 5, 7, 9, 11],
            Scale::HarmonicMinor => vec![0, 2, 3, 5, 7, 8, 11],
            Scale::MelodicMinor => vec![0, 2, 3, 5, 7, 9, 11],
            Scale::NaturalMinor => vec![0, 2, 3, 5, 7, 8, 10],
            Scale::PentatonicMajor => vec![0, 2, 4, 7, 9],
            Scale::PentatonicMinor => vec![0, 3, 5, 7, 10],
            Scale::PentatonicBlues => vec![0, 3, 5, 6, 7, 10],
            Scale::PentatonicNeutral => vec![0, 2, 5, 7, 10],
            Scale::WholeDiminished => vec![0, 2, 3, 5, 6, 8, 9, 11],
            Scale::HalfDiminished => vec![0, 1, 3, 4, 6, 7, 9, 10],
            Scale::Ionian => vec![0, 2, 4, 5, 7, 9, 11],
            Scale::Dorian => vec![0, 2, 3, 5, 7, 9, 10],
            Scale::Phrygian => vec![0, 1, 3, 5, 7, 8, 10],
            Scale::Lydian => vec![0, 2, 4, 6, 7, 9, 11],
            Scale::Mixolydian => vec![0, 2, 4, 5, 7, 9, 10],
            Scale::Aeolian => vec![0, 2, 3, 5, 7, 8, 10],
            Scale::Locrian => vec![0, 1, 3, 5, 6, 8, 10],
        }
    }

    /// The name under which the scale is shown.
    pub fn name(&self) -> (r: &'static str)
        ensures
            r@ == self.spec_name(),
    {
        match self {
            Scale::Major => "Major",
            Scale::HarmonicMinor => "Harmonic Minor",
            Scale::MelodicMinor => "Melodic Minor",
            Scale::NaturalMinor => "Natural Minor",
            Scale::PentatonicMajor => "Pentatonic Major",
            Scale::PentatonicMinor => "Pentatonic Minor",
            Scale::PentatonicBlues => "Pentatonic Blues",
            Scale::PentatonicNeutral => "Pentatonic Neutral",
            Scale::WholeDiminished => "Whole Diminished",
            Scale::HalfDiminished => "Half Diminished",
            Scale::Ionian => "Ionian",
            Scale::Dorian => "Dorian",
            Scale::Phrygian => "Phrygian",
            Scale::Lydian => "Lydian",
            Scale::Mixolydian => "Mixolydian",
            Scale::Aeolian => "Aeolian",
            Scale::Locrian => "Locrian",
        }
    }

    /// Every scale, in declaration order.
    pub fn all() -> (r: Vec<Scale>)
        ensures
            r@ == seq![
                Scale::Major,
                Scale::HarmonicMinor,
                Scale::MelodicMinor,
                Scale::NaturalMinor,
                Scale::PentatonicMajor,
                Scale::PentatonicMinor,
                Scale::PentatonicBlues,
                Scale::PentatonicNeutral,
                Scale::WholeDiminished,
                Scale::HalfDiminished,
                Scale::Ionian,
                Scale::Dorian,
                Scale::Phrygian,
                Scale::Lydian,
                Scale::Mixolydian,
                Scale::Aeolian,
                Scale::Locrian,
            ],
    {
        vec![
            Scale::Major,
            Scale::HarmonicMinor,
            Scale::MelodicMinor,
            Scale::NaturalMinor,
            Scale::PentatonicMajor,
            Scale::PentatonicMinor,
            Scale::PentatonicBlues,
            Scale::PentatonicNeutral,
            Scale::WholeDiminished,
            Scale::HalfDiminished,
            Scale::Ionian,
            Scale::Dorian,
            Scale::Phrygian,
            Scale::Lydian,
            Scale::Mixolydian,
            Scale::Aeolian,
            Scale::Locrian,
        ]
    }
}

/// Every scale's interval pattern is valid.
pub proof fn lemma_steps_wf(s: Scale)
    ensures
        steps_wf(s.spec_steps()),
{
}

/// The resolved scale: for each offset `d` of the pattern, in order, the note
/// `d` semitones above `root`, paired with `d`.
pub open spec fn resolved(root: Note, steps: Seq<usize>) -> Seq<(Note, usize)> {
    steps.map_values(|d: usize| (root.transposed(d as nat), d))
}

/// Resolves an interval pattern from `root`: each offset `d`, in order,
/// becomes the pair of the note `d` semitones above the root and `d`.
pub fn resolve(root: Note, steps: &[usize]) -> (r: Vec<(Note, usize)>)
    ensures
        r@ == resolved(root, steps@),
{
    let root_index = root.index();
    let mut notes: Vec<(Note, usize)> = Vec::new();
    let mut i: usize = 0;
    while i < steps.len()
        invariant
            i <= steps@.len(),
            root_index == root.spec_index(),
            notes@ =~= resolved(root, steps@).take(i as int),
        decreases steps@.len() - i,
    {
        let step = steps[i];
        let note = Note::from_index(root_index + step % NUM_NOTES);
        proof {
            assert((root_index + step % 12) % 12 == (root_index + step) % 12) by (nonlinear_arith);
        }
        notes.push((note, step));
        assert(notes@ =~= resolved(root, steps@).take(i + 1));
        i = i + 1;
    }
    assert(notes@ =~= resolved(root, steps@));
    notes
}

/// Resolving any scale from any root gives one pair per offset of the
/// pattern, with the degrees strictly ascending and every note's chromatic
/// index below 12.
pub proof fn resolved_scale_shape(root: Note, scale: Scale)
    ensures
        resolved(root, scale.spec_steps()).len() == scale.spec_steps().len(),
        forall|i: int, j: int|
            0 <= i < j < scale.spec_steps().len() ==> resolved(root, scale.spec_steps())[i].1
                < resolved(root, scale.spec_steps())[j].1,
        forall|i: int|
            0 <= i < scale.spec_steps().len() ==> (#[trigger] resolved(
                root,
                scale.spec_steps(),
            )[i]).0.spec_index() < 12,
{
    lemma_steps_wf(scale);
}

/// The first note of a resolved scale is its root.
pub proof fn resolved_scale_starts_at_root(root: Note, scale: Scale)
    ensures
        resolved(root, scale.spec_steps())[0].0 == root,
{
    lemma_steps_wf(scale);
    lemma_index_roundtrip(root);
}

} // verus!
