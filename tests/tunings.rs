use daily_scale::{get_notes_by_tuning, tuning_to_string, Note, Tuning};

#[test]
fn test_get_notes() {
    assert_eq!(
        Tuning::StandardCSharp6.get_notes(),
        &[
            Note::CSharp,
            Note::FSharp,
            Note::CSharp,
            Note::E,
            Note::GSharp,
            Note::CSharp,
        ]
    );
    assert_eq!(
        Tuning::DropA7.get_notes(),
        &[
            Note::A,
            Note::E,
            Note::A,
            Note::D,
            Note::G,
            Note::B,
            Note::E
        ]
    );
}

#[test]
fn tuning_names_and_notes() {
    assert_eq!(tuning_to_string(Tuning::StandardE6), "Standard E");
    assert_eq!(tuning_to_string(Tuning::DropD6), "Drop D");
    assert_eq!(tuning_to_string(Tuning::StandardB7), "Standard B");
    assert_eq!(tuning_to_string(Tuning::DropA7), "Drop A");
    assert_eq!(tuning_to_string(Tuning::DropCSharp6), "Drop C#");
    assert_eq!(Tuning::DropCSharp6.name(), "Drop C# (6 string)");
    assert_eq!(Tuning::AllFourths7.name(), "All fourths (7 string)");
    assert_eq!(
        get_notes_by_tuning(Tuning::StandardE6),
        vec![Note::E, Note::A, Note::D, Note::G, Note::B, Note::E]
    );
}
