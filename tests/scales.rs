use daily_scale::params::candidates;
use daily_scale::scales::resolve;
use daily_scale::{Note, Params, Scale, Format, Tuning};

#[test]
fn test_get_steps() {
    assert_eq!(Scale::HarmonicMinor.get_steps(), &[0, 2, 3, 5, 7, 8, 11]);
    assert_eq!(Scale::Phrygian.get_steps(), &[0, 1, 3, 5, 7, 8, 10]);
}

#[test]
fn resolve_a_minor_harmonic() {
    let steps = Scale::HarmonicMinor.get_steps();
    assert_eq!(
        resolve(Note::A, &steps),
        vec![
            (Note::A, 0),
            (Note::B, 2),
            (Note::C, 3),
            (Note::D, 5),
            (Note::E, 7),
            (Note::F, 8),
            (Note::GSharp, 11),
        ]
    );
}

#[test]
fn resolve_wraps_past_g_sharp() {
    let steps = Scale::PentatonicMinor.get_steps();
    assert_eq!(
        resolve(Note::G, &steps),
        vec![
            (Note::G, 0),
            (Note::ASharp, 3),
            (Note::C, 5),
            (Note::D, 7),
            (Note::F, 10),
        ]
    );
}

#[test]
fn resolved_scales_keep_shape_and_root() {
    for root in Note::all() {
        for scale in Scale::all() {
            let steps = scale.get_steps();
            let r = resolve(root, &steps);
            assert_eq!(r.len(), steps.len());
            assert_eq!(r[0].0, root);
            for w in r.windows(2) {
                assert!(w[0].1 < w[1].1);
            }
            for (n, _) in &r {
                assert!(n.index() < 12);
            }
        }
    }
}

#[test]
fn params_resolve_the_scale() {
    let p = Params::new(
        Tuning::StandardE6,
        Note::C,
        Scale::Major,
        3,
        Format { flat: false, colored: false },
    );
    assert_eq!(p.starting_fret, 3);
    assert_eq!(p.root_note, Note::C);
    assert_eq!(
        p.notes_in_scale,
        vec![
            (Note::C, 0),
            (Note::D, 2),
            (Note::E, 4),
            (Note::F, 5),
            (Note::G, 7),
            (Note::A, 9),
            (Note::B, 11),
        ]
    );
}

#[test]
fn scale_names() {
    assert_eq!(Scale::PentatonicBlues.name(), "Pentatonic Blues");
    assert_eq!(Scale::all().len(), 17);
}

#[test]
fn candidates_prefer_given_values() {
    assert_eq!(candidates(Some(vec![3usize, 5]), vec![0, 1, 2]), vec![3, 5]);
    assert_eq!(candidates(None, vec![0usize, 1, 2]), vec![0, 1, 2]);
}
