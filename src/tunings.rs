use vstd::prelude::*;

use crate::notes::Note;

verus! {

/// A tuning of a six- or seven-string instrument.
#[derive(Copy, Clone, Debug, PartialEq, Eq, Structural)]
pub enum Tuning {
    StandardE6,
    OpenG6,
    OpenE6,
    OpenD6,
    OpenC6,
    OpenA6,
    DropD6,
    StandardD6,
    DropCSharp6,
    StandardCSharp6,
    DropC6,
    StandardC6,
    StandardB7,
    DropA7,
    StandardA7,
    AllFourths7,
}

impl Tuning {
    /// The open-string notes, lowest-pitched string first.
    pub open spec fn spec_notes(self) -> Seq<Note> {
        match self {
            Tuning::StandardE6 => seq![Note::E, Note::A, Note::D, Note::G, Note::B, Note::E],
            Tuning::OpenG6 => seq![Note::D, Note::G, Note::D, Note::G, Note::B, Note::D],
            Tuning::OpenE6 => seq![Note::E, Note::B, Note::E, Note::GSharp, Note::B, Note::E],
            Tuning::OpenD6 => seq![Note::D, Note::A, Note::D, Note::FSharp, Note::A, Note::D],
            Tuning::OpenC6 => seq![Note::C, Note::G, Note::C, Note::G, Note::C, Note::E],
            Tuning::OpenA6 => seq![Note::E, Note::A, Note::E, Note::A, Note::CSharp, Note::E],
            Tuning::DropD6 => seq![Note::D, Note::A, Note::D, Note::G, Note::B, Note::E],
            Tuning::StandardD6 => seq![Note::D, Note::G, Note::C, Note::F, Note::A, Note::D],
            Tuning::DropCSharp6 => seq![Note::CSharp, Note::GSharp, Note::CSharp, Note::FSharp, Note::ASharp, Note::DSharp],
            Tuning::StandardCSharp6 => seq![Note::CSharp, Note::FSharp, Note::CSharp, Note::E, Note::GSharp, Note::CSharp],
            Tuning::DropC6 => seq![Note::C, Note::G, Note::C, Note::F, Note::A, Note::D],
            Tuning::StandardC6 => seq![Note::C, Note::F, Note::ASharp, Note::DSharp, Note::G, Note::C],
            Tuning::StandardB7 => seq![Note::B, Note::E, Note::A, Note::D, Note::G, Note::B, Note::E],
            Tuning::DropA7 => seq![Note::A, Note::E, Note::A, Note::D, Note::G, Note::B, Note::E],
            Tuning::StandardA7 => seq![Note::A, Note::D, Note::G, Note::C, Note::F, Note::A, Note::D],
            Tuning::AllFourths7 => seq![Note::B, Note::E, Note::A, Note::D, Note::G, Note::C, Note::F],
        }
    }

    /// The name under which the tuning is shown.
    pub open spec fn spec_name(self) -> Seq<char> {
        match self {
            Tuning::StandardE6 => "Standard E (6 string)"@,
            Tuning::OpenG6 => "Open G (6 string)"@,
            Tuning::OpenE6 => "Open E (6 string)"@,
            Tuning::OpenD6 => "Open D (6 string)"@,
            Tuning::OpenC6 => "Open C (6 string)"@,
            Tuning::OpenA6 => "Open A (6 string)"@,
            Tuning::DropD6 => "Drop D (6 string)"@,
            Tuning::StandardD6 => "Standard D (6 string)"@,
            Tuning::DropCSharp6 => "Drop C# (6 string)"@,
            Tuning::StandardCSharp6 => "Standard C# (6 string)"@,
            Tuning::DropC6 => "Drop C (6 string)"@,
            Tuning::StandardC6 => "Standard C (6 string)"@,
            Tuning::StandardB7 => "Standard B (7 string)"@,
            Tuning::DropA7 => "Drop A (7 string)"@,
            Tuning::StandardA7 => "Standard A (7 string)"@,
            Tuning::AllFourths7 => "All fourths (7 string)"@,
        }
    }

    /// The short name of the tuning: its name without the string count.
    pub open spec fn spec_short_name(self) -> Seq<char> {
        match self {
            Tuning::StandardE6 => "Standard E"@,
            Tuning::OpenG6 => "Open G"@,
            Tuning::OpenE6 => "Open E"@,
            Tuning::OpenD6 => "Open D"@,
            Tuning::OpenC6 => "Open C"@,
            Tuning::OpenA6 => "Open A"@,
            Tuning::DropD6 => "Drop D"@,
            Tuning::StandardD6 => "Standard D"@,
            Tuning::DropCSharp6 => "Drop C#"@,
            Tuning::StandardCSharp6 => "Standard C#"@,
            Tuning::DropC6 => "Drop C"@,
            Tuning::StandardC6 => "Standard C"@,
            Tuning::StandardB7 => "Standard B"@,
            Tuning::DropA7 => "Drop A"@,
            Tuning::StandardA7 => "Standard A"@,
            Tuning::AllFourths7 => "All fourths"@,
        }
    }

    /// The name under which the tuning is shown, with its string count.
    pub fn name(&self) -> (r: &'static str)
        ensures
            r@ == self.spec_name(),
    {
        match self {
            Tuning::StandardE6 => "Standard E (6 string)",
            Tuning::OpenG6 => "Open G (6 string)",
            Tuning::OpenE6 => "Open E (6 string)",
            Tuning::OpenD6 => "Open D (6 string)",
            Tuning::OpenC6 => "Open C (6 string)",
            Tuning::OpenA6 => "Open A (6 string)",
            Tuning::DropD6 => "Drop D (6 string)",
            Tuning::StandardD6 => "Standard D (6 string)",
            Tuning::DropCSharp6 => "Drop C# (6 string)",
            Tuning::StandardCSharp6 => "Standard C# (6 string)",
            Tuning::DropC6 => "Drop C (6 string)",
            Tuning::StandardC6 => "Standard C (6 string)",
            Tuning::StandardB7 => "Standard B (7 string)",
            Tuning::DropA7 => "Drop A (7 string)",
            Tuning::StandardA7 => "Standard A (7 string)",
            Tuning::AllFourths7 => "All fourths (7 string)",
        }
    }

    /// The open-string notes, lowest-pitched string first.
    pub fn get_notes(&self) -> (r: Vec<Note>)
        ensures
            r@ == self.spec_notes(),
    {
        match self {
            Tuning::StandardE6 => vec![Note::E, Note::A, Note::D, Note::G, Note::B, Note::E],
            Tuning::OpenG6 => vec![Note::D, Note::G, Note::D, Note::G, Note::B, Note::D],
            Tuning::OpenE6 => vec![Note::E, Note::B, Note::E, Note::GSharp, Note::B, Note::E],
            Tuning::OpenD6 => vec![Note::D, Note::A, Note::D, Note::FSharp, Note::A, Note::D],
            Tuning::OpenC6 => vec![Note::C, Note::G, Note::C, Note::G, Note::C, Note::E],
            Tuning::OpenA6 => vec![Note::E, Note::A, Note::E, Note::A, Note::CSharp, Note::E],
            Tuning::DropD6 => vec![Note::D, Note::A, Note::D, Note::G, Note::B, Note::E],
            Tuning::StandardD6 => vec![Note::D, Note::G, Note::C, Note::F, Note::A, Note::D],
            Tuning::DropCSharp6 => vec![Note::CSharp, Note::GSharp, Note::CSharp, Note::FSharp, Note::ASharp, Note::DSharp],
            Tuning::StandardCSharp6 => vec![Note::CSharp, Note::FSharp, Note::CSharp, Note::E, Note::GSharp, Note::CSharp],
            Tuning::DropC6 => vec![Note::C, Note::G, Note::C, Note::F, Note::A, Note::D],
            Tuning::StandardC6 => vec![Note::C, Note::F, Note::ASharp, Note::DSharp, Note::G, Note::C],
            Tuning::StandardB7 => vec![Note::B, Note::E, Note::A, Note::D, Note::G, Note::B, Note::E],
            Tuning::DropA7 => vec![Note::A, Note::E, Note::A, Note::D, Note::G, Note::B, Note::E],
            Tuning::StandardA7 => vec![Note::A, Note::D, Note::G, Note::C, Note::F, Note::A, Note::D],
            Tuning::AllFourths7 => vec![Note::B, Note::E, Note::A, Note::D, Note::G, Note::C, Note::F],
        }
    }
}

/// The number of strings of every tuning is six or seven.
pub proof fn lemma_string_count(t: Tuning)
    ensures
        6 <= t.spec_notes().len() <= 7,
{
}

/// The short name of a tuning: its name without the string count.
pub fn tuning_to_string(tuning: Tuning) -> (r: &'static str)
    ensures
        r@ == tuning.spec_short_name(),
{
    match tuning {
        Tuning::StandardE6 => "Standard E",
        Tuning::OpenG6 => "Open G",
        Tuning::OpenE6 => "Open E",
        Tuning::OpenD6 => "Open D",
        Tuning::OpenC6 => "Open C",
        Tuning::OpenA6 => "Open A",
        Tuning::DropD6 => "Drop D",
        Tuning::StandardD6 => "Standard D",
        Tuning::DropCSharp6 => "Drop C#",
        Tuning::StandardCSharp6 => "Standard C#",
        Tuning::DropC6 => "Drop C",
        Tuning::StandardC6 => "Standard C",
        Tuning::StandardB7 => "Standard B",
        Tuning::DropA7 => "Drop A",
        Tuning::StandardA7 => "Standard A",
        Tuning::AllFourths7 => "All fourths",
    }
}

/// The open-string notes of a tuning, lowest-pitched string first.
pub fn get_notes_by_tuning(tuning: Tuning) -> (r: Vec<Note>)
    ensures
        r@ == tuning.spec_notes(),
{
    tuning.get_notes()
}

} // verus!
