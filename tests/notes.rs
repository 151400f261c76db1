use daily_scale::{accidental_to_note, get_flat_accidentals, note_to_string, Accidental, Note};

#[test]
fn test_accidental_to_note() {
    assert_eq!(accidental_to_note(&Accidental::CSharp), Note::CSharp);
    assert_eq!(accidental_to_note(&Accidental::AFlat), Note::GSharp);
}

#[test]
fn test_note_to_string() {
    assert_eq!(note_to_string(Note::CSharp, true), "Db");
    assert_eq!(note_to_string(Note::GSharp, false), "G#");
}

#[test]
fn test_to_note() {
    assert_eq!(Accidental::CSharp.to_note(), Note::CSharp);
    assert_eq!(Accidental::AFlat.to_note(), Note::GSharp);
}

#[test]
fn test_to_string() {
    assert_eq!(Note::CSharp.to_str(true), "Db");
    assert_eq!(Note::GSharp.to_str(false), "G#");
}

#[test]
fn flat_accidentals_are_the_five_flats() {
    assert_eq!(
        get_flat_accidentals(),
        vec![
            Accidental::AFlat,
            Accidental::BFlat,
            Accidental::DFlat,
            Accidental::EFlat,
            Accidental::GFlat,
        ]
    );
    assert!(Accidental::EFlat.is_flat());
    assert!(!Accidental::DSharp.is_flat());
    assert!(!Accidental::A.is_flat());
}

#[test]
fn note_index_round_trips() {
    let all = Note::all();
    assert_eq!(all.len(), 12);
    for (i, n) in all.iter().enumerate() {
        assert_eq!(n.index(), i);
        assert_eq!(Note::from_index(i), *n);
        assert_eq!(Note::from_index(i + 12), *n);
    }
    assert_eq!(Note::from_index(19), Note::E);
}

#[test]
fn natural_notes_have_one_letter() {
    assert_eq!(Note::A.to_str(true), "A");
    assert_eq!(Note::E.to_str(false), "E");
    assert_eq!(Note::ASharp.to_str(true), "Bb");
    assert_eq!(Note::ASharp.to_str(false), "A#");
}
