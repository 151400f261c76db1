use daily_scale::fret_board::{fret_length, starting_fret_in_range};
use daily_scale::scales::resolve;
use daily_scale::{
    build_fret_board, build_fret_board_string, build_fret_num_string, build_row, format_fret_num,
    format_note, format_with_color, Format, Note, Scale, Tuning,
};

#[test]
fn test_format_note() {
    assert_eq!(
        format_note(
            Note::A,
            0,
            '-',
            &Format {
                flat: true,
                colored: false
            }
        ),
        "A-"
    );
    assert_eq!(
        format_note(
            Note::CSharp,
            0,
            '=',
            &Format {
                flat: false,
                colored: false
            },
        ),
        "C#"
    );
    assert_eq!(
        format_note(
            Note::GSharp,
            0,
            '-',
            &Format {
                flat: true,
                colored: false
            },
        ),
        "Ab"
    );
}

#[test]
fn test_format_fret_num() {
    assert_eq!(format_fret_num(0), "0 ");
    assert_eq!(format_fret_num(14), "14");
}

#[test]
fn test_build_fret_board_string() {
    assert_eq!(
        build_fret_board_string(
            5,
            &[(Note::A, 0), (Note::B, 2), (Note::C, 3)],
            Note::E,
            '=',
            &Format {
                flat: false,
                colored: false
            },
        ),
        "|====A====|========|===B====|===C====|========|"
    );
    assert_eq!(
        build_fret_board_string(
            12,
            &[(Note::DSharp, 1), (Note::E, 2), (Note::FSharp, 4)],
            Note::D,
            '=',
            &Format {
                flat: false,
                colored: false
            },
        ),
        "|=======|===D#==|===E===|======|==F#==|"
    );
    assert_eq!(
        build_fret_board_string(
            0,
            &[(Note::B, 0), (Note::CSharp, 2), (Note::DSharp, 4)],
            Note::B,
            '-',
            &Format {
                flat: true,
                colored: false
            },
        ),
        "B-|----------|----Db----|---------|----Eb---|"
    );
}

#[test]
fn test_build_fret_num_string() {
    assert_eq!(
        build_fret_num_string(0),
        "  |    1     |    2     |    3    |    4    |"
    );
    assert_eq!(
        build_fret_num_string(12),
        "|   12  |   13  |   14  |  15  |  16  |"
    );
}

#[test]
fn test_build_fret_board() {
    assert_eq!(
        build_fret_board(
            Tuning::OpenG6,
            0,
            &[
                (Note::A, 0),
                (Note::B, 2),
                (Note::C, 3),
                (Note::D, 5),
                (Note::E, 7),
                (Note::F, 8),
                (Note::GSharp, 11),
            ],
            &Format {
                flat: false,
                colored: false
            },
        ),
        vec![
            "D-|----------|----E-----|----F----|---------|",
            "B-|----C-----|----------|----D----|---------|",
            "--|----G#----|----A-----|---------|----B----|",
            "D=|==========|====E=====|====F====|=========|",
            "==|====G#====|====A=====|=========|====B====|",
            "D=|==========|====E=====|====F====|=========|",
            "  |    1     |    2     |    3    |    4    |",
        ]
    );
    assert_eq!(
        build_fret_board(
            Tuning::StandardB7,
            7,
            &[
                (Note::A, 0),
                (Note::B, 2),
                (Note::CSharp, 4),
                (Note::D, 5),
                (Note::E, 7),
                (Note::FSharp, 9),
                (Note::G, 10),
            ],
            &Format {
                flat: true,
                colored: false
            },
        ),
        vec![
            "|---B----|--------|---Db---|---D---|-------|",
            "|---Gb---|---G----|--------|---A---|-------|",
            "|---D----|--------|---E----|-------|---Gb--|",
            "|---A----|--------|---B----|-------|---Db--|",
            "|===E====|========|===Gb===|===G===|=======|",
            "|===B====|========|===Db===|===D===|=======|",
            "|===Gb===|===G====|========|===A===|=======|",
            "|   7    |   8    |   9    |   10  |   11  |",
        ]
    );
    assert_eq!(
        build_fret_board(
            Tuning::OpenE6,
            15,
            &[
                (Note::A, 0),
                (Note::ASharp, 1),
                (Note::CSharp, 4),
                (Note::DSharp, 6),
                (Note::FSharp, 9),
                (Note::GSharp, 11),
            ],
            &Format {
                flat: false,
                colored: false
            },
        ),
        vec![
            "|------|--G#--|--A---|--A#--|------|",
            "|------|--D#--|------|------|--F#--|",
            "|------|------|--C#--|------|--D#--|",
            "|======|==G#==|==A===|==A#==|======|",
            "|======|==D#==|======|======|==F#==|",
            "|======|==G#==|==A===|==A#==|======|",
            "|  15  |  16  |  17  |  18  |  19  |"
        ]
    );
}

const PLAIN: Format = Format {
    flat: false,
    colored: false,
};

fn a_harmonic_minor() -> Vec<(Note, usize)> {
    resolve(Note::A, &Scale::HarmonicMinor.get_steps())
}

#[test]
fn standard_tuning_top_row_and_labels() {
    let board = build_fret_board(Tuning::StandardE6, 0, &a_harmonic_minor(), &PLAIN);
    assert_eq!(board.len(), 7);
    assert_eq!(board[0], "E-|----F-----|----------|---------|----G#---|");
    assert_eq!(board[6], "  |    1     |    2     |    3    |    4    |");
}

#[test]
fn rows_are_aligned_for_every_window() {
    let scale = a_harmonic_minor();
    for tuning in [Tuning::StandardE6, Tuning::StandardB7, Tuning::OpenD6, Tuning::AllFourths7] {
        for start in 0..=20 {
            let board = build_fret_board(tuning, start, &scale, &PLAIN);
            assert_eq!(board.len(), tuning.get_notes().len() + 1);
            let width = board.last().unwrap().chars().count();
            for line in &board {
                assert_eq!(line.chars().count(), width);
            }
        }
    }
}

#[test]
fn column_widths_follow_fret_lengths() {
    let line = build_fret_board_string(0, &[], Note::E, '=', &PLAIN);
    assert_eq!(line, "==|==========|==========|=========|=========|");
    let cols: Vec<&str> = line.split('|').collect();
    assert_eq!(cols[0].len(), 2);
    for f in 1..5 {
        assert_eq!(cols[f].len(), fret_length(f));
    }
    assert_eq!(fret_length(1), 10);
    assert_eq!(fret_length(24), 5);
    assert_eq!(build_fret_num_string(20), "|  20  |  21 |  22 |  23 |  24 |");
}

#[test]
fn rendering_twice_gives_the_same_lines() {
    let scale = a_harmonic_minor();
    let first = build_fret_board(Tuning::DropD6, 9, &scale, &PLAIN);
    let second = build_fret_board(Tuning::DropD6, 9, &scale, &PLAIN);
    assert_eq!(first, second);
}

#[test]
fn labels_appear_only_at_scale_notes() {
    let scale = [(Note::C, 0), (Note::E, 4)];
    let line = build_fret_board_string(6, &scale, Note::A, '-', &PLAIN);
    let cols: Vec<&str> = line.split('|').collect();
    // frets 6..10 on the A string: D#, E, F, F#, G
    assert_eq!(cols[1], "--------");
    assert!(cols[2].contains('E'));
    assert_eq!(cols[3], "--------");
    assert_eq!(cols[4], "--------");
    assert_eq!(cols[5], "-------");
}

#[test]
fn open_string_cell_is_two_wide() {
    let a = build_fret_board_string(0, &[(Note::E, 0)], Note::E, '-', &PLAIN);
    assert!(a.starts_with("E-|"));
    let b = build_fret_board_string(0, &[(Note::FSharp, 0)], Note::FSharp, '=', &PLAIN);
    assert!(b.starts_with("F#|"));
    let c = build_fret_board_string(0, &[(Note::A, 0)], Note::E, '=', &PLAIN);
    assert!(c.starts_with("==|"));
}

#[test]
fn starting_fret_range() {
    assert!(starting_fret_in_range(0));
    assert!(starting_fret_in_range(20));
    assert!(!starting_fret_in_range(21));
}

#[test]
fn build_row_centres_cells() {
    let cells = vec![None, Some("ab".to_string()), None, Some("xy".to_string()), None];
    assert_eq!(
        build_row(1, &cells, '.'),
        "|..........|....ab....|.........|....xy...|.........|"
    );
}

#[test]
fn colored_labels_keep_the_note() {
    let colored = Format {
        flat: false,
        colored: true,
    };
    let cell = format_note(Note::A, 0, '-', &colored);
    assert!(cell.contains('A'));
    assert!(cell.ends_with('-'));
    assert_eq!(format_with_color("C#", 1, true), "C#");
    assert_eq!(format_with_color("C#", 0, false), "C#");
    assert!(format_with_color("Eb", 7, true).contains("Eb"));
    let line = build_fret_board_string(0, &[(Note::E, 0)], Note::E, '-', &colored);
    assert!(line.contains('E'));
    assert!(line.ends_with('|'));
}

#[test]
fn seven_strings_pad_three_lowest_with_equals() {
    let board = build_fret_board(Tuning::AllFourths7, 3, &[], &PLAIN);
    assert_eq!(board.len(), 8);
    for row in &board[0..4] {
        assert!(row.contains('-') && !row.contains('='));
    }
    for row in &board[4..7] {
        assert!(row.contains('=') && !row.contains('-'));
    }
}

#[test]
fn colours_follow_scale_degrees() {
    let root = format_with_color("A", 0, true);
    assert!(root == "A" || root == "\u{1b}[32mA\u{1b}[0m");
    let fifth = format_with_color("E", 7, true);
    assert!(fifth == "E" || fifth == "\u{1b}[34mE\u{1b}[0m");
    let seventh = format_with_color("G#", 11, true);
    assert!(seventh == "G#" || seventh == "\u{1b}[33mG#\u{1b}[0m");
    assert_eq!(format_with_color("B", 2, true), "B");
    let cell = format_note(Note::D, 5, '=', &Format { flat: false, colored: true });
    assert!(cell == "D=" || cell == "\u{1b}[36mD\u{1b}[0m=");
}

#[test]
fn fret_numbers_in_decimal() {
    assert_eq!(format_fret_num(7), "7 ");
    assert_eq!(format_fret_num(24), "24");
    assert_eq!(format_fret_num(305), "305");
}
