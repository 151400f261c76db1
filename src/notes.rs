use vstd::prelude::*;

verus! {

/// Number of pitch classes in the chromatic scale.
pub const NUM_NOTES: usize = 12;

/// The twelve pitch classes, in chromatic order starting at A.
#[derive(Copy, Clone, Debug, PartialEq, Eq, Structural)]
pub enum Note {
    A,
    ASharp,
    B,
    C,
    CSharp,
    D,
    DSharp,
    E,
    F,
    FSharp,
    G,
    GSharp,
}

/// The note with chromatic index `i % 12`.
pub open spec fn note_at_index(i: nat) -> Note {
    let k = i % 12;
    if k == 0 {
        Note::A
    } else if k == 1 {
        Note::ASharp
    } else if k == 2 {
        Note::B
    } else if k == 3 {
        Note::C
    } else if k == 4 {
        Note::CSharp
    } else if k == 5 {
        Note::D
    } else if k == 6 {
        Note::DSharp
    } else if k == 7 {
        Note::E
    } else if k == 8 {
        Note::F
    } else if k == 9 {
        Note::FSharp
    } else if k == 10 {
        Note::G
    } else {
        Note::GSharp
    }
}

/// A letter name, `#`, or `b`: the characters a note label is made of.
pub open spec fn is_label_char(c: char) -> bool {
    c == 'A' || c == 'B' || c == 'C' || c == 'D' || c == 'E' || c == 'F' || c == 'G' || c == '#'
        || c == 'b'
}

impl Note {
    /// Chromatic index of the note, A being 0.
    pub open spec fn spec_index(self) -> nat {
        match self {
            Note::A => 0,
            Note::ASharp => 1,
            Note::B => 2,
            Note::C => 3,
            Note::CSharp => 4,
            Note::D => 5,
            Note::DSharp => 6,
            Note::E => 7,
            Note::F => 8,
            Note::FSharp => 9,
            Note::G => 10,
            Note::GSharp => 11,
        }
    }

    /// The note that lies `semitones` above this one.
    pub open spec fn transposed(self, semitones: nat) -> Note {
        note_at_index(self.spec_index() + semitones)
    }

    /// The label of the note: a letter, followed by `#` or `b` for the five
    /// accidentals depending on whether flats are preferred.
    pub open spec fn label(self, flat: bool) -> Seq<char> {
        match self {
            Note::A => seq!['A'],
            Note::ASharp => if flat { seq!['B', 'b'] } else { seq!['A', '#'] },
            Note::B => seq!['B'],
            Note::C => seq!['C'],
            Note::CSharp => if flat { seq!['D', 'b'] } else { seq!['C', '#'] },
            Note::D => seq!['D'],
            Note::DSharp => if flat { seq!['E', 'b'] } else { seq!['D', '#'] },
            Note::E => seq!['E'],
            Note::F => seq!['F'],
            Note::FSharp => if flat { seq!['G', 'b'] } else { seq!['F', '#'] },
            Note::G => seq!['G'],
            Note::GSharp => if flat { seq!['A', 'b'] } else { seq!['G', '#'] },
        }
    }

    /// Chromatic index of the note, A being 0.
    pub fn index(self) -> (r: usize)
        ensures
            r == self.spec_index(),
            r < NUM_NOTES,
    {
        match self {
            Note::A => 0,
            Note::ASharp => 1,
            Note::B => 2,
            Note::C => 3,
            Note::CSharp => 4,
            Note::D => 5,
            Note::DSharp => 6,
            Note::E => 7,
            Note::F => 8,
            Note::FSharp => 9,
            Note::G => 10,
            Note::GSharp => 11,
        }
    }

    /// The note whose chromatic index is `i` modulo 12; total on every `i`.
    pub fn from_index(i: usize) -> (r: Note)
        ensures
            r == note_at_index(i as nat),
            r.spec_index() == i % 12,
    {
        let k = i % NUM_NOTES;
        if k == 0 {
            Note::A
        } else if k == 1 {
            Note::ASharp
        } else if k == 2 {
            Note::B
        } else if k == 3 {
            Note::C
        } else if k == 4 {
            Note::CSharp
        } else if k == 5 {
            Note::D
        } else if k == 6 {
            Note::DSharp
        } else if k == 7 {
            Note::E
        } else if k == 8 {
            Note::F
        } else if k == 9 {
            Note::FSharp
        } else if k == 10 {
            Note::G
        } else {
            Note::GSharp
        }
    }

    /// All twelve notes in chromatic order.
    pub fn all() -> (r: Vec<Note>)
        ensures
            r@.len() == NUM_NOTES,
            forall|i: int| 0 <= i < NUM_NOTES ==> (#[trigger] r@[i]).spec_index() == i,
    {
        vec![
            Note::A,
            Note::ASharp,
            Note::B,
            Note::C,
            Note::CSharp,
            Note::D,
            Note::DSharp,
            Note::E,
            Note::F,
            Note::FSharp,
            Note::G,
            Note::GSharp,
        ]
    }

    /// The note's label, sharp-spelled unless `flat` is set.
    pub fn to_str(self, flat: bool) -> (r: &'static str)
        ensures
            r@ == self.label(flat),
    {
        match self {
            Note::A => {
                proof { reveal_strlit("A"); }
                "A"
            },
            Note::ASharp => {
                if flat {
                    proof { reveal_strlit("Bb"); }
                    "Bb"
                } else {
                    proof { reveal_strlit("A#"); }
                    "A#"
                }
            },
            Note::B => {
                proof { reveal_strlit("B"); }
                "B"
            },
            Note::C => {
                proof { reveal_strlit("C"); }
                "C"
            },
            Note::CSharp => {
                if flat {
                    proof { reveal_strlit("Db"); }
                    "Db"
                } else {
                    proof { reveal_strlit("C#"); }
                    "C#"
                }
            },
            Note::D => {
                proof { reveal_strlit("D"); }
                "D"
            },
            Note::DSharp => {
                if flat {
                    proof { reveal_strlit("Eb"); }
                    "Eb"
                } else {
                    proof { reveal_strlit("D#"); }
                    "D#"
                }
            },
            Note::E => {
                proof { reveal_strlit("E"); }
                "E"
            },
            Note::F => {
                proof { reveal_strlit("F"); }
                "F"
            },
            Note::FSharp => {
                if flat {
                    proof { reveal_strlit("Gb"); }
                    "Gb"
                } else {
                    proof { reveal_strlit("F#"); }
                    "F#"
                }
            },
            Note::G => {
                proof { reveal_strlit("G"); }
                "G"
            },
            Note::GSharp => {
                if flat {
                    proof { reveal_strlit("Ab"); }
                    "Ab"
                } else {
                    proof { reveal_strlit("G#"); }
                    "G#"
                }
            },
        }
    }
}

/// A label has one or two characters, starts with a letter, and holds only
/// letters, `#` and `b`.
pub proof fn lemma_label_shape(n: Note, flat: bool)
    ensures
        1 <= n.label(flat).len() <= 2,
        n.label(flat)[0] != '#' && n.label(flat)[0] != 'b',
        forall|i: int| 0 <= i < n.label(flat).len() ==> is_label_char(#[trigger] n.label(flat)[i]),
{
}

/// `note_at_index` inverts the chromatic index.
pub proof fn lemma_index_roundtrip(n: Note)
    ensures
        note_at_index(n.spec_index()) == n,
{
}

/// The label of a note, flat- or sharp-spelled as `flat` asks.
pub fn note_to_string(note: Note, flat: bool) -> (r: &'static str)
    ensures
        r@ == note.label(flat),
{
    note.to_str(flat)
}

/// A root note as it can be named on the command line, with flat spellings.
#[derive(Copy, Clone, Debug, PartialEq, Eq, Structural, Hash)]
pub enum Accidental {
    AFlat,
    A,
    ASharp,
    BFlat,
    B,
    C,
    CSharp,
    DFlat,
    D,
    DSharp,
    EFlat,
    E,
    F,
    FSharp,
    GFlat,
    G,
    GSharp,
}

impl Accidental {
    /// The pitch class that this spelling names.
    pub open spec fn spec_note(self) -> Note {
        match self {
            Accidental::AFlat => Note::GSharp,
            Accidental::A => Note::A,
            Accidental::ASharp => Note::ASharp,
            Accidental::BFlat => Note::ASharp,
            Accidental::B => Note::B,
            Accidental::C => Note::C,
            Accidental::CSharp => Note::CSharp,
            Accidental::DFlat => Note::CSharp,
            Accidental::D => Note::D,
            Accidental::DSharp => Note::DSharp,
            Accidental::EFlat => Note::DSharp,
            Accidental::E => Note::E,
            Accidental::F => Note::F,
            Accidental::FSharp => Note::FSharp,
            Accidental::GFlat => Note::FSharp,
            Accidental::G => Note::G,
            Accidental::GSharp => Note::GSharp,
        }
    }

    /// Whether this is one of the five flat spellings.
    pub open spec fn spec_is_flat(self) -> bool {
        self == Accidental::AFlat || self == Accidental::BFlat || self == Accidental::DFlat
            || self == Accidental::EFlat || self == Accidental::GFlat
    }

    /// The pitch class that this spelling names.
    pub fn to_note(self) -> (r: Note)
        ensures
            r == self.spec_note(),
    {
        match self {
            Accidental::AFlat => Note::GSharp,
            Accidental::A => Note::A,
            Accidental::ASharp => Note::ASharp,
            Accidental::BFlat => Note::ASharp,
            Accidental::B => Note::B,
            Accidental::C => Note::C,
            Accidental::CSharp => Note::CSharp,
            Accidental::DFlat => Note::CSharp,
            Accidental::D => Note::D,
            Accidental::DSharp => Note::DSharp,
            Accidental::EFlat => Note::DSharp,
            Accidental::E => Note::E,
            Accidental::F => Note::F,
            Accidental::FSharp => Note::FSharp,
            Accidental::GFlat => Note::FSharp,
            Accidental::G => Note::G,
            Accidental::GSharp => Note::GSharp,
        }
    }

    /// Whether this spelling is among `get_flat_accidentals()`.
    pub fn is_flat(self) -> (r: bool)
        ensures
            r == self.spec_is_flat(),
    {
        let flats = get_flat_accidentals();
        let mut i: usize = 0;
        while i < flats.len()
            invariant
                i <= flats@.len(),
                flats@ == flat_accidentals(),
                forall|j: int| 0 <= j < i ==> flats@[j] != self,
            decreases flats@.len() - i,
        {
            if flats[i] == self {
                return true;
            }
            i = i + 1;
        }
        proof {
            assert(!flat_accidentals().contains(self));
            if self.spec_is_flat() {
                lemma_flat_accidentals_exact(self);
            }
        }
        false
    }
}

/// The five flat spellings, in the order A, B, D, E, G.
pub open spec fn flat_accidentals() -> Seq<Accidental> {
    seq![
        Accidental::AFlat,
        Accidental::BFlat,
        Accidental::DFlat,
        Accidental::EFlat,
        Accidental::GFlat,
    ]
}

/// An accidental is listed among the flats exactly when it is a flat spelling.
pub proof fn lemma_flat_accidentals_exact(a: Accidental)
    ensures
        flat_accidentals().contains(a) <==> a.spec_is_flat(),
{
    if a.spec_is_flat() {
        let k: int = if a == Accidental::AFlat {
            0
        } else if a == Accidental::BFlat {
            1
        } else if a == Accidental::DFlat {
            2
        } else if a == Accidental::EFlat {
            3
        } else {
            4
        };
        assert(flat_accidentals()[k] == a);
    }
}

/// The pitch class that an accidental names.
pub fn accidental_to_note(root_note: &Accidental) -> (r: Note)
    ensures
        r == root_note.spec_note(),
{
    root_note.to_note()
}

/// The flat spellings, which make the labels of a diagram use flats.
pub fn get_flat_accidentals() -> (r: Vec<Accidental>)
    ensures
        r@ == flat_accidentals(),
{
    vec![
        Accidental::AFlat,
        Accidental::BFlat,
        Accidental::DFlat,
        Accidental::EFlat,
        Accidental::GFlat,
    ]
}

} // verus!
