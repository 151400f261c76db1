use vstd::prelude::*;

use crate::color::{label_shown, painted};
use crate::notes::{is_label_char, lemma_label_shape, Note};
use crate::params::Format;
use crate::text::{decimal, push_char, push_decimal, push_repeat, repeat};
use crate::tunings::Tuning;

verus! {

/// Highest fret of the instrument.
pub const NUM_FRETS: usize = 24;

/// Number of frets a diagram shows.
pub const FRET_SPAN: usize = 5;

/// Number of strings, counted from the lowest-pitched one, drawn with `=`;
/// the others are drawn with `-`.
pub const NUM_THICK_STRINGS: usize = 3;

/// Width in characters of the column of fret `fret`, the bar before it
/// excluded: wide near the nut, narrower toward the body, like real frets.
/// The open string (fret 0) has no such column.
pub open spec fn spec_fret_length(fret: nat) -> nat {
    if fret == 0 {
        0
    } else if fret <= 2 {
        10
    } else if fret <= 5 {
        9
    } else if fret <= 9 {
        8
    } else if fret <= 14 {
        7
    } else if fret <= 20 {
        6
    } else {
        5
    }
}

/// Padding on the left of a centred cell in a column of width `len`.
pub open spec fn left_pad(len: nat) -> nat {
    if len % 2 == 1 {
        len / 2
    } else {
        (len / 2 - 1) as nat
    }
}

/// Padding on the right of a centred cell in a column of width `len`.
pub open spec fn right_pad(len: nat) -> nat {
    (len / 2 - 1) as nat
}

/// The text of one fret: for the open string the cell itself, or two padding
/// characters where there is none; for any other fret a bar, then the cell
/// centred in the fret's width, or the width filled with padding.
pub open spec fn column(fret: nat, cell: Option<Seq<char>>, pad: char) -> Seq<char> {
    if fret == 0 {
        match cell {
            Some(c) => c,
            None => seq![pad, pad],
        }
    } else {
        let len = spec_fret_length(fret);
        seq!['|'] + match cell {
            Some(c) => repeat(pad, left_pad(len)) + c + repeat(pad, right_pad(len)),
            None => repeat(pad, len),
        }
    }
}

/// The first `k` columns of a row starting at fret `start`.
pub open spec fn columns(start: nat, cells: Seq<Option<Seq<char>>>, pad: char, k: nat) -> Seq<
    char,
>
    decreases k,
{
    if k == 0 {
        seq![]
    } else {
        columns(start, cells, pad, (k - 1) as nat) + column(
            (start + k - 1) as nat,
            cells[k - 1],
            pad,
        )
    }
}

/// A row of the diagram: the columns of the frets `start .. start + FRET_SPAN`,
/// holding `cells[i]` at fret `start + i`, closed by a bar.
pub open spec fn row(start: nat, cells: Seq<Option<Seq<char>>>, pad: char) -> Seq<char> {
    columns(start, cells, pad, FRET_SPAN as nat) + seq!['|']
}

/// A fret number as it stands in the label row: two characters, a single
/// digit followed by a space.
pub open spec fn fret_num_cell(fret: nat) -> Seq<char> {
    if decimal(fret).len() == 1 {
        decimal(fret).push(' ')
    } else {
        decimal(fret)
    }
}

/// The cells of the label row: no number over the open string.
pub open spec fn fret_num_cells(start: nat) -> Seq<Option<Seq<char>>> {
    Seq::new(
        FRET_SPAN as nat,
        |i: int|
            if start + i == 0 {
                None
            } else {
                Some(fret_num_cell((start + i) as nat))
            },
    )
}

/// The label row under a diagram starting at fret `start`.
pub open spec fn fret_num_line(start: nat) -> Seq<char> {
    row(start, fret_num_cells(start), ' ')
}

/// A note label as it stands in a cell: two characters, a one-letter label
/// followed by the string's padding character.
pub open spec fn note_cell(label: Seq<char>, pad: char) -> Seq<char> {
    if label.len() == 1 {
        label.push(pad)
    } else {
        label
    }
}

/// `text` followed by the padding character where `label` has one letter
/// only.
pub open spec fn padded(text: Seq<char>, label: Seq<char>, pad: char) -> Seq<char> {
    if label.len() == 1 {
        text.push(pad)
    } else {
        text
    }
}

/// `cell` is the cell of a label of scale degree `step`: the label as
/// `label_shown` allows it to show, followed by the padding character where
/// the label has one letter only.
pub open spec fn cell_shown(
    cell: Seq<char>,
    label: Seq<char>,
    step: nat,
    pad: char,
    colored: bool,
) -> bool {
    exists|text: Seq<char>| #[trigger]
        label_shown(text, label, step, colored) && cell == padded(text, label, pad)
}

/// Some pair of the resolved scale holds `n`.
pub open spec fn in_scale(scale: Seq<(Note, usize)>, n: Note) -> bool {
    exists|i: int| 0 <= i < scale.len() && scale[i].0 == n
}

/// `i` is the index of the first pair of `scale` that holds `n`.
pub open spec fn is_first_index(scale: Seq<(Note, usize)>, n: Note, i: int) -> bool {
    &&& 0 <= i < scale.len()
    &&& scale[i].0 == n
    &&& forall|j: int| 0 <= j < i ==> scale[j].0 != n
}

/// The scale degree of the first pair of `scale` that holds `n`, where
/// `in_scale(scale, n)`.
pub open spec fn first_step(scale: Seq<(Note, usize)>, n: Note) -> usize {
    scale[choose|i: int| is_first_index(scale, n, i)].1
}

/// The uncoloured cell of fret `fret` on a string tuned to `string`.
pub open spec fn plain_cell(
    scale: Seq<(Note, usize)>,
    string: Note,
    fret: nat,
    pad: char,
    flat: bool,
) -> Option<Seq<char>> {
    let note = string.transposed(fret);
    if in_scale(scale, note) {
        Some(note_cell(note.label(flat), pad))
    } else {
        None
    }
}

/// The uncoloured cells of a string over the frets `start .. start + FRET_SPAN`.
pub open spec fn plain_cells(
    start: nat,
    scale: Seq<(Note, usize)>,
    string: Note,
    pad: char,
    flat: bool,
) -> Seq<Option<Seq<char>>> {
    Seq::new(FRET_SPAN as nat, |i: int| plain_cell(scale, string, (start + i) as nat, pad, flat))
}

/// The uncoloured row of one string.
pub open spec fn string_line(
    start: nat,
    scale: Seq<(Note, usize)>,
    string: Note,
    pad: char,
    flat: bool,
) -> Seq<char> {
    row(start, plain_cells(start, scale, string, pad, flat), pad)
}

/// Cells of a coloured row: a cell exactly at the frets whose note is in the
/// scale, each holding that note's label, painted in the colour of the degree
/// of the first pair of the scale that holds the note, or plain where the
/// terminal environment turns colours off.
pub open spec fn colored_cells_fit(
    cells: Seq<Option<Seq<char>>>,
    start: nat,
    scale: Seq<(Note, usize)>,
    string: Note,
    pad: char,
    flat: bool,
) -> bool {
    &&& cells.len() == FRET_SPAN
    &&& forall|i: int|
        0 <= i < FRET_SPAN ==> {
            let note = #[trigger] string.transposed((start + i) as nat);
            &&& (cells[i] is Some <==> in_scale(scale, note))
            &&& (cells[i] is Some ==> cell_shown(
                cells[i]->0,
                note.label(flat),
                first_step(scale, note) as nat,
                pad,
                true,
            ))
        }
}

/// `line` is the row of a string tuned to `string`: exactly `string_line`
/// when uncoloured; when coloured, the same layout around cells that may carry
/// the colour of their scale degree.
pub open spec fn rendered_line(
    line: Seq<char>,
    start: nat,
    scale: Seq<(Note, usize)>,
    string: Note,
    pad: char,
    format: Format,
) -> bool {
    if format.colored {
        exists|cells: Seq<Option<Seq<char>>>|
            colored_cells_fit(cells, start, scale, string, pad, format.flat) && line == row(
                start,
                cells,
                pad,
            )
    } else {
        line == string_line(start, scale, string, pad, format.flat)
    }
}

/// Width of the column of `fret`, as `spec_fret_length` gives it.
pub fn fret_length(fret: usize) -> (r: usize)
    requires
        fret <= NUM_FRETS,
    ensures
        r == spec_fret_length(fret as nat),
{
    if fret == 0 {
        0
    } else if fret <= 2 {
        10
    } else if fret <= 5 {
        9
    } else if fret <= 9 {
        8
    } else if fret <= 14 {
        7
    } else if fret <= 20 {
        6
    } else {
        5
    }
}

/// Whether a diagram can start at `starting_fret`: its last fret must not
/// pass the instrument's highest.
pub fn starting_fret_in_range(starting_fret: usize) -> (r: bool)
    ensures
        r == (starting_fret + FRET_SPAN <= NUM_FRETS + 1),
{
    starting_fret <= NUM_FRETS + 1 - FRET_SPAN
}

/// Lays out one row of the diagram over the frets
/// `starting_fret .. starting_fret + FRET_SPAN`, with `cells[i]` at fret
/// `starting_fret + i`.
pub fn build_row(starting_fret: usize, cells: &Vec<Option<String>>, pad: char) -> (r: String)
    requires
        starting_fret + FRET_SPAN <= NUM_FRETS + 1,
        cells@.len() == FRET_SPAN,
    ensures
        r@ == row(starting_fret as nat, cells.deep_view(), pad),
{
    let ghost cv = cells.deep_view();
    let mut out = String::new();
    let mut i: usize = 0;
    while i < FRET_SPAN
        invariant
            i <= FRET_SPAN,
            starting_fret + FRET_SPAN <= NUM_FRETS + 1,
            cells@.len() == FRET_SPAN,
            cv == cells.deep_view(),
            out@ == columns(starting_fret as nat, cv, pad, i as nat),
        decreases FRET_SPAN - i,
    {
        let ghost before = out@;
        let fret = starting_fret + i;
        assert(cv[i as int] == cells@[i as int].deep_view());
        if fret == 0 {
            match &cells[i] {
                Some(c) => {
                    out.append(c.as_str());
                },
                None => {
                    push_char(&mut out, pad);
                    push_char(&mut out, pad);
                },
            }
        } else {
            push_char(&mut out, '|');
            let len = fret_length(fret);
            match &cells[i] {
                Some(c) => {
                    let left = if len % 2 != 0 {
                        len / 2
                    } else {
                        len / 2 - 1
                    };
                    push_repeat(&mut out, pad, left);
                    out.append(c.as_str());
                    push_repeat(&mut out, pad, len / 2 - 1);
                },
                None => {
                    push_repeat(&mut out, pad, len);
                },
            }
        }
        assert(out@ =~= before + column(fret as nat, cv[i as int], pad));
        i = i + 1;
    }
    push_char(&mut out, '|');
    out
}

/// A fret number as it stands in the label row.
pub fn format_fret_num(fret_num: usize) -> (r: String)
    ensures
        r@ == fret_num_cell(fret_num as nat),
{
    let mut s = String::new();
    push_decimal(&mut s, fret_num);
    if s.as_str().unicode_len() == 1 {
        push_char(&mut s, ' ');
    }
    s
}

/// The label row under a diagram starting at `starting_fret`: each fret's
/// number centred in its column, blank over the open string.
pub fn build_fret_num_string(starting_fret: usize) -> (r: String)
    requires
        starting_fret + FRET_SPAN <= NUM_FRETS + 1,
    ensures
        r@ == fret_num_line(starting_fret as nat),
{
    let mut cells: Vec<Option<String>> = Vec::new();
    let mut i: usize = 0;
    while i < FRET_SPAN
        invariant
            i <= FRET_SPAN,
            starting_fret + FRET_SPAN <= NUM_FRETS + 1,
            cells@.len() == i,
            cells.deep_view() =~= fret_num_cells(starting_fret as nat).take(i as int),
        decreases FRET_SPAN - i,
    {
        let fret = starting_fret + i;
        if fret == 0 {
            cells.push(None);
        } else {
            cells.push(Some(format_fret_num(fret)));
        }
        assert(cells.deep_view() =~= fret_num_cells(starting_fret as nat).take(i + 1));
        i = i + 1;
    }
    assert(cells.deep_view() =~= fret_num_cells(starting_fret as nat));
    build_row(starting_fret, &cells, ' ')
}

/// A note as it stands in a cell: its label, coloured after the scale degree
/// `step` when the format asks for colour, then `string_char` where the label
/// has one letter only.
pub fn format_note(note: Note, step: usize, string_char: char, format: &Format) -> (r: String)
    ensures
        !format.colored ==> r@ == note_cell(note.label(format.flat), string_char),
        cell_shown(r@, note.label(format.flat), step as nat, string_char, format.colored),
{
    let note_string = note.to_str(format.flat);
    proof {
        lemma_label_shape(note, format.flat);
        assert forall|i: int| 0 <= i < note_string@.len() implies note_string@[i] != '\u{1b}' by {
            assert(is_label_char(note_string@[i]));
        }
    }
    let mut colored_note = crate::color::format_with_color(note_string, step, format.colored);
    let ghost text = colored_note@;
    let ghost label = note_string@;
    if note_string.unicode_len() == 1 {
        push_char(&mut colored_note, string_char);
    }
    assert(label_shown(text, label, step as nat, format.colored) && colored_note@ == padded(
        text,
        label,
        string_char,
    ));
    colored_note
}

/// The scale degree of the first pair of `scale` that holds `note`, if any.
pub fn find_step(scale: &[(Note, usize)], note: Note) -> (r: Option<usize>)
    ensures
        r == if in_scale(scale@, note) {
            Some(first_step(scale@, note))
        } else {
            None
        },
{
    let mut i: usize = 0;
    while i < scale.len()
        invariant
            i <= scale@.len(),
            forall|j: int| 0 <= j < i ==> scale@[j].0 != note,
        decreases scale@.len() - i,
    {
        let (n, step) = scale[i];
        if n == note {
            proof {
                assert(is_first_index(scale@, note, i as int));
                let c = choose|c: int| is_first_index(scale@, note, c);
                if c < i {
                    assert(scale@[c].0 != note);
                } else if c > i {
                    assert(scale@[i as int].0 != note);
                }
            }
            return Some(step);
        }
        i = i + 1;
    }
    None
}

/// The row of one string tuned to `string` over the frets
/// `starting_fret .. starting_fret + FRET_SPAN`: every fret whose note is in
/// `notes_in_scale` shows the note's label, centred; the others are filled
/// with `string_char`.
pub fn build_fret_board_string(
    starting_fret: usize,
    notes_in_scale: &[(Note, usize)],
    string: Note,
    string_char: char,
    format: &Format,
) -> (r: String)
    requires
        starting_fret + FRET_SPAN <= NUM_FRETS + 1,
    ensures
        rendered_line(r@, starting_fret as nat, notes_in_scale@, string, string_char, *format),
{
    let ghost scale = notes_in_scale@;
    let ghost plain = plain_cells(starting_fret as nat, scale, string, string_char, format.flat);
    let open_index = string.index();
    let mut cells: Vec<Option<String>> = Vec::new();
    let mut i: usize = 0;
    while i < FRET_SPAN
        invariant
            i <= FRET_SPAN,
            starting_fret + FRET_SPAN <= NUM_FRETS + 1,
            open_index == string.spec_index(),
            scale == notes_in_scale@,
            plain == plain_cells(starting_fret as nat, scale, string, string_char, format.flat),
            cells@.len() == i,
            !format.colored ==> cells.deep_view() =~= plain.take(i as int),
            forall|k: int|
                0 <= k < i ==> {
                    let note = #[trigger] string.transposed((starting_fret + k) as nat);
                    &&& (cells.deep_view()[k] is Some <==> in_scale(scale, note))
                    &&& (cells.deep_view()[k] is Some ==> cell_shown(
                        cells.deep_view()[k]->0,
                        note.label(format.flat),
                        first_step(scale, note) as nat,
                        string_char,
                        format.colored,
                    ))
                },
        decreases FRET_SPAN - i,
    {
        let fret = starting_fret + i;
        let note = Note::from_index(open_index + fret);
        assert(note == string.transposed(fret as nat));
        let ghost old_cells = cells.deep_view();
        match find_step(notes_in_scale, note) {
            Some(step) => {
                cells.push(Some(format_note(note, step, string_char, format)));
            },
            None => {
                cells.push(None);
            },
        }
        assert(cells.deep_view()[i as int] == cells@[i as int].deep_view());
        assert forall|k: int| 0 <= k < i implies cells.deep_view()[k] == old_cells[k] by {
            assert(cells.deep_view()[k] == cells@[k].deep_view());
            assert(old_cells[k] == cells@[k].deep_view());
        }
        if !format.colored {
            assert(cells.deep_view() =~= plain.take(i + 1));
        }
        i = i + 1;
    }
    let r = build_row(starting_fret, &cells, string_char);
    proof {
        if format.colored {
            assert(colored_cells_fit(
                cells.deep_view(),
                starting_fret as nat,
                scale,
                string,
                string_char,
                format.flat,
            ));
        } else {
            assert(cells.deep_view() =~= plain);
        }
    }
    r
}

/// Padding character of string `k`, counted from the lowest-pitched: the
/// three lowest-pitched strings take `=`, the others `-`.
pub open spec fn string_pad(k: int) -> char {
    if k < NUM_THICK_STRINGS {
        '='
    } else {
        '-'
    }
}

/// The uncoloured diagram: one row per string, highest-pitched string on top,
/// then the label row.
pub open spec fn board(
    strings: Seq<Note>,
    start: nat,
    scale: Seq<(Note, usize)>,
    flat: bool,
) -> Seq<Seq<char>> {
    let n = strings.len() as int;
    Seq::new(
        (n + 1) as nat,
        |i: int|
            if i < n {
                string_line(start, scale, strings[n - 1 - i], string_pad(n - 1 - i), flat)
            } else {
                fret_num_line(start)
            },
    )
}

/// The diagram of `notes_in_scale` on an instrument in `tuning` over the
/// frets `starting_fret .. starting_fret + FRET_SPAN`: the rows of the
/// strings, highest-pitched on top, then the row of fret numbers.
pub fn build_fret_board(
    tuning: Tuning,
    starting_fret: usize,
    notes_in_scale: &[(Note, usize)],
    format: &Format,
) -> (r: Vec<String>)
    requires
        starting_fret + FRET_SPAN <= NUM_FRETS + 1,
    ensures
        r@.len() == tuning.spec_notes().len() + 1,
        forall|i: int|
            0 <= i < tuning.spec_notes().len() ==> {
                let n = tuning.spec_notes().len() as int;
                rendered_line(
                    #[trigger] r@[i]@,
                    starting_fret as nat,
                    notes_in_scale@,
                    tuning.spec_notes()[n - 1 - i],
                    string_pad(n - 1 - i),
                    *format,
                )
            },
        r@[tuning.spec_notes().len() as int]@ == fret_num_line(starting_fret as nat),
        !format.colored ==> r.deep_view() == board(
            tuning.spec_notes(),
            starting_fret as nat,
            notes_in_scale@,
            format.flat,
        ),
{
    let notes_in_tuning = tuning.get_notes();
    proof {
        crate::tunings::lemma_string_count(tuning);
    }
    let n = notes_in_tuning.len();
    let ghost strings = notes_in_tuning@;
    let ghost full = board(strings, starting_fret as nat, notes_in_scale@, format.flat);
    let mut fret_board: Vec<String> = Vec::new();
    let mut j: usize = 0;
    while j < n
        invariant
            j <= n,
            n == strings.len(),
            6 <= n <= 7,
            strings == tuning.spec_notes(),
            notes_in_tuning@ == strings,
            starting_fret + FRET_SPAN <= NUM_FRETS + 1,
            full == board(strings, starting_fret as nat, notes_in_scale@, format.flat),
            fret_board@.len() == j,
            forall|i: int|
                0 <= i < j ==> rendered_line(
                    #[trigger] fret_board@[i]@,
                    starting_fret as nat,
                    notes_in_scale@,
                    strings[n - 1 - i],
                    string_pad(n - 1 - i),
                    *format,
                ),
            !format.colored ==> fret_board.deep_view() =~= full.take(j as int),
        decreases n - j,
    {
        let k = n - 1 - j;
        let string_char = if k < NUM_THICK_STRINGS {
            '='
        } else {
            '-'
        };
        let line = build_fret_board_string(
            starting_fret,
            notes_in_scale,
            notes_in_tuning[k],
            string_char,
            format,
        );
        fret_board.push(line);
        proof {
            if !format.colored {
                assert(fret_board.deep_view() =~= full.take(j + 1)) by {
                    assert forall|i: int| 0 <= i < j + 1 implies fret_board.deep_view()[i]
                        == full[i] by {
                        assert(fret_board.deep_view()[i] == fret_board@[i]@);
                    }
                }
            }
        }
        j = j + 1;
    }
    let fret_num_string = build_fret_num_string(starting_fret);
    fret_board.push(fret_num_string);
    proof {
        if !format.colored {
            assert forall|i: int| 0 <= i < n + 1 implies fret_board.deep_view()[i] == full[i] by {
                assert(fret_board.deep_view()[i] == fret_board@[i]@);
                if i < n {
                    assert(full.take(n as int)[i] == full[i]);
                }
            }
            assert(fret_board.deep_view() =~= full);
        }
    }
    fret_board
}

/// Width of the column of `fret` when its cell, if any, has two characters.
pub open spec fn column_width(fret: nat) -> nat {
    if fret == 0 {
        2
    } else {
        spec_fret_length(fret) + 1
    }
}

/// Total width of the first `k` columns of a row starting at `start`.
pub open spec fn columns_width(start: nat, k: nat) -> nat
    decreases k,
{
    if k == 0 {
        0
    } else {
        columns_width(start, (k - 1) as nat) + column_width((start + k - 1) as nat)
    }
}

/// Every cell that is present has two characters.
pub open spec fn cells_two_wide(cells: Seq<Option<Seq<char>>>) -> bool {
    forall|i: int| 0 <= i < cells.len() ==> (#[trigger] cells[i] is Some ==> cells[i]->0.len() == 2)
}

/// `t` occurs in `s` as a run of consecutive characters.
pub open spec fn contains_run(s: Seq<char>, t: Seq<char>) -> bool {
    exists|k: int| 0 <= k && k + t.len() <= s.len() && #[trigger] s.subrange(k, k + t.len()) == t
}

/// The column of fret `fret` is `FRET_LENGTH[fret] + 1` characters wide (its
/// bar and its width), and the open string's column two characters wide with
/// no bar, whether the column holds a two-character cell or none.
pub proof fn column_width_matches_fret_length(fret: nat, cell: Option<Seq<char>>, pad: char)
    requires
        fret <= NUM_FRETS,
        cell is Some ==> cell->0.len() == 2,
    ensures
        column(fret, cell, pad).len() == column_width(fret),
        fret > 0 ==> column(fret, cell, pad)[0] == '|',
{
}

/// A row whose cells are two characters wide has the width of its columns
/// and a closing bar.
pub proof fn lemma_columns_len(start: nat, cells: Seq<Option<Seq<char>>>, pad: char, k: nat)
    requires
        start + k <= NUM_FRETS + 1,
        k <= cells.len(),
        cells_two_wide(cells),
    ensures
        columns(start, cells, pad, k).len() == columns_width(start, k),
    decreases k,
{
    if k > 0 {
        lemma_columns_len(start, cells, pad, (k - 1) as nat);
        column_width_matches_fret_length((start + k - 1) as nat, cells[k - 1], pad);
    }
}

/// A note's cell and a fret number's cell are both two characters wide.
pub proof fn lemma_cells_two_wide(
    start: nat,
    scale: Seq<(Note, usize)>,
    string: Note,
    pad: char,
    flat: bool,
)
    requires
        start + FRET_SPAN <= NUM_FRETS + 1,
    ensures
        cells_two_wide(plain_cells(start, scale, string, pad, flat)),
        cells_two_wide(fret_num_cells(start)),
{
    let cells = plain_cells(start, scale, string, pad, flat);
    assert forall|i: int| 0 <= i < cells.len() && #[trigger] cells[i] is Some implies cells[i]->0.len()
        == 2 by {
        lemma_label_shape(string.transposed((start + i) as nat), flat);
    }
    assert forall|i: int| 0 <= i < FRET_SPAN && start + i > 0 implies (#[trigger] fret_num_cell(
        (start + i) as nat,
    )).len() == 2 by {
        let f = (start + i) as nat;
        reveal_with_fuel(decimal, 2);
        if f >= 10 {
            assert(f / 10 < 10);
        }
    }
}

/// In an uncoloured diagram there is a row per string and the label row, and
/// every string's row has the same length as the label row.
pub proof fn board_rows_aligned(
    tuning: Tuning,
    start: nat,
    scale: Seq<(Note, usize)>,
    flat: bool,
)
    requires
        start + FRET_SPAN <= NUM_FRETS + 1,
    ensures
        board(tuning.spec_notes(), start, scale, flat).len() == tuning.spec_notes().len() + 1,
        forall|i: int|
            0 <= i < tuning.spec_notes().len() + 1 ==> (#[trigger] board(
                tuning.spec_notes(),
                start,
                scale,
                flat,
            )[i]).len() == fret_num_line(start).len(),
{
    let strings = tuning.spec_notes();
    let n = strings.len() as int;
    crate::tunings::lemma_string_count(tuning);
    lemma_cells_two_wide(start, scale, strings[0], '=', flat);
    lemma_columns_len(start, fret_num_cells(start), ' ', FRET_SPAN as nat);
    assert forall|i: int| 0 <= i < n + 1 implies (#[trigger] board(
        strings,
        start,
        scale,
        flat,
    )[i]).len() == fret_num_line(start).len() by {
        if i < n {
            let string = strings[n - 1 - i];
            let pad = string_pad(n - 1 - i);
            lemma_cells_two_wide(start, scale, string, pad, flat);
            lemma_columns_len(
                start,
                plain_cells(start, scale, string, pad, flat),
                pad,
                FRET_SPAN as nat,
            );
        }
    }
}

/// Rendering is a function of its inputs: two uncoloured diagrams of the
/// same tuning, window and scale are the same, line for line.
pub proof fn rendering_is_pure(
    tuning: Tuning,
    start: nat,
    scale: Seq<(Note, usize)>,
    flat: bool,
    first: Seq<Seq<char>>,
    second: Seq<Seq<char>>,
)
    requires
        first == board(tuning.spec_notes(), start, scale, flat),
        second == board(tuning.spec_notes(), start, scale, flat),
    ensures
        first == second,
{
}

/// Column widths add up: the first `i` columns are no wider than the first `j`.
pub proof fn lemma_columns_width_monotonic(start: nat, i: nat, j: nat)
    requires
        i <= j,
    ensures
        columns_width(start, i) <= columns_width(start, j),
    decreases j,
{
    if i < j {
        lemma_columns_width_monotonic(start, i, (j - 1) as nat);
    }
}

/// In a row whose cells are two characters wide, column `i` stands right
/// after the first `i` columns.
pub proof fn lemma_column_at(
    start: nat,
    cells: Seq<Option<Seq<char>>>,
    pad: char,
    k: nat,
    i: int,
)
    requires
        start + k <= NUM_FRETS + 1,
        k <= cells.len(),
        cells_two_wide(cells),
        0 <= i < k,
    ensures
        columns(start, cells, pad, k).subrange(
            columns_width(start, i as nat) as int,
            columns_width(start, (i + 1) as nat) as int,
        ) == column((start + i) as nat, cells[i], pad),
    decreases k,
{
    let prev = columns(start, cells, pad, (k - 1) as nat);
    let last = column((start + k - 1) as nat, cells[k - 1], pad);
    lemma_columns_len(start, cells, pad, (k - 1) as nat);
    column_width_matches_fret_length((start + k - 1) as nat, cells[k - 1], pad);
    let lo = columns_width(start, i as nat) as int;
    let hi = columns_width(start, (i + 1) as nat) as int;
    if i == k - 1 {
        assert((prev + last).subrange(lo, hi) =~= last);
    } else {
        lemma_column_at(start, cells, pad, (k - 1) as nat, i);
        lemma_columns_width_monotonic(start, (i + 1) as nat, (k - 1) as nat);
        assert((prev + last).subrange(lo, hi) =~= prev.subrange(lo, hi));
    }
}

/// In a string row, the characters after the first `i` columns, as many as
/// `column_width` gives, are the column of fret `start + i`.
pub proof fn lemma_line_column(
    start: nat,
    scale: Seq<(Note, usize)>,
    string: Note,
    pad: char,
    flat: bool,
    i: int,
)
    requires
        0 <= i < FRET_SPAN,
        start + FRET_SPAN <= NUM_FRETS + 1,
    ensures
        string_line(start, scale, string, pad, flat).subrange(
            columns_width(start, i as nat) as int,
            (columns_width(start, i as nat) + column_width((start + i) as nat)) as int,
        ) == column((start + i) as nat, plain_cells(start, scale, string, pad, flat)[i], pad),
{
    let cells = plain_cells(start, scale, string, pad, flat);
    lemma_cells_two_wide(start, scale, string, pad, flat);
    lemma_column_at(start, cells, pad, FRET_SPAN as nat, i);
    lemma_columns_len(start, cells, pad, FRET_SPAN as nat);
    lemma_columns_width_monotonic(start, (i + 1) as nat, FRET_SPAN as nat);
    let all = columns(start, cells, pad, FRET_SPAN as nat);
    let lo = columns_width(start, i as nat) as int;
    let hi = columns_width(start, (i + 1) as nat) as int;
    assert((all + seq!['|']).subrange(lo, hi) =~= all.subrange(lo, hi));
}

/// The uncoloured column of a fret holds the label of the fret's note
/// exactly when that note is in the scale.
pub proof fn lemma_column_label(
    scale: Seq<(Note, usize)>,
    string: Note,
    fret: nat,
    pad: char,
    flat: bool,
)
    requires
        fret <= NUM_FRETS,
        pad == '=' || pad == '-',
    ensures
        contains_run(
            column(fret, plain_cell(scale, string, fret, pad, flat), pad),
            string.transposed(fret).label(flat),
        ) <==> in_scale(scale, string.transposed(fret)),
{
    let note = string.transposed(fret);
    let label = note.label(flat);
    let col = column(fret, plain_cell(scale, string, fret, pad, flat), pad);
    lemma_label_shape(note, flat);
    if in_scale(scale, note) {
        let k: int = if fret == 0 {
            0
        } else {
            (1 + left_pad(spec_fret_length(fret))) as int
        };
        assert(col.subrange(k, k + label.len()) =~= label);
    } else {
        assert forall|j: int| 0 <= j < col.len() implies col[j] == pad || col[j] == '|' by {}
        if contains_run(col, label) {
            let k = choose|k: int|
                0 <= k && k + label.len() <= col.len() && #[trigger] col.subrange(
                    k,
                    k + label.len(),
                ) == label;
            assert(col.subrange(k, k + label.len())[0] == col[k]);
            assert(is_label_char(label[0]));
        }
    }
}

/// In an uncoloured string row, the column of each fret (the characters
/// after the columns before it, as wide as `column_width` gives) holds the
/// label of the fret's note exactly when that note is in the scale.
pub proof fn column_shows_scale_notes(
    start: nat,
    scale: Seq<(Note, usize)>,
    string: Note,
    pad: char,
    flat: bool,
    i: int,
)
    requires
        0 <= i < FRET_SPAN,
        start + FRET_SPAN <= NUM_FRETS + 1,
        pad == '=' || pad == '-',
    ensures
        string_line(start, scale, string, pad, flat).subrange(
            columns_width(start, i as nat) as int,
            (columns_width(start, i as nat) + column_width((start + i) as nat)) as int,
        ) == column((start + i) as nat, plain_cells(start, scale, string, pad, flat)[i], pad),
        contains_run(
            string_line(start, scale, string, pad, flat).subrange(
                columns_width(start, i as nat) as int,
                (columns_width(start, i as nat) + column_width((start + i) as nat)) as int,
            ),
            string.transposed((start + i) as nat).label(flat),
        ) <==> in_scale(scale, string.transposed((start + i) as nat)),
{
    lemma_line_column(start, scale, string, pad, flat, i);
    lemma_column_label(scale, string, (start + i) as nat, pad, flat);
    assert(plain_cells(start, scale, string, pad, flat)[i] == plain_cell(
        scale,
        string,
        (start + i) as nat,
        pad,
        flat,
    ));
}

} // verus!
