use vstd::prelude::*;

verus! {

/// Number of keys in the table: twelve major keys, then twelve natural minor keys.
pub const NUM_KEYS: usize = 24;

/// The note names of a key's seven-note scale, tonic first,
/// e.g. `["C", "D", "E", "F", "G", "A", "B"]`.
#[derive(Clone, Copy, Debug)]
pub struct KeyScale {
    pub note_names: [&'static str; 7],
}

/// Entry `index` of the key table: the scale's note names and the key's name.
/// Indices 0..12 are the major keys in the order C, G, D, A, E, B, F#, C#, F, Bb, Eb, Ab;
/// indices 12..24 the natural minor keys A, E, B, F#, C#, G#, D, G, C, F, Bb, Eb.
pub open spec fn spec_key_entry(index: int) -> (Seq<&'static str>, &'static str) {
    if index == 0 {
        (seq!["C", "D", "E", "F", "G", "A", "B"], "C")
    } else if index == 1 {
        (seq!["G", "A", "B", "C", "D", "E", "F#"], "G")
    } else if index == 2 {
        (seq!["D", "E", "F#", "G", "A", "B", "C#"], "D")
    } else if index == 3 {
        (seq!["A", "B", "C#", "D", "E", "F#", "G#"], "A")
    } else if index == 4 {
        (seq!["E", "F#", "G#", "A", "B", "C#", "D#"], "E")
    } else if index == 5 {
        (seq!["B", "C#", "D#", "E", "F#", "G#", "A#"], "B")
    } else if index == 6 {
        (seq!["F#", "G#", "A#", "B", "C#", "D#", "E#"], "F#")
    } else if index == 7 {
        (seq!["C#", "D#", "E#", "F#", "G#", "A#", "B#"], "C#")
    } else if index == 8 {
        (seq!["F", "G", "A", "Bb", "C", "D", "E"], "F")
    } else if index == 9 {
        (seq!["Bb", "C", "D", "Eb", "F", "G", "A"], "Bb")
    } else if index == 10 {
        (seq!["Eb", "F", "G", "Ab", "Bb", "C", "D"], "Eb")
    } else if index == 11 {
        (seq!["Ab", "Bb", "C", "Db", "Eb", "F", "G"], "Ab")
    } else if index == 12 {
        (seq!["A", "B", "C", "D", "E", "F", "G"], "A")
    } else if index == 13 {
        (seq!["E", "F#", "G", "A", "B", "C", "D"], "E")
    } else if index == 14 {
        (seq!["B", "C#", "D", "E", "F#", "G", "A"], "B")
    } else if index == 15 {
        (seq!["F#", "G#", "A", "B", "C#", "D", "E"], "F#")
    } else if index == 16 {
        (seq!["C#", "D#", "E", "F#", "G#", "A", "B"], "C#")
    } else if index == 17 {
        (seq!["G#", "A#", "B", "C#", "D#", "E", "F#"], "G#")
    } else if index == 18 {
        (seq!["D", "E", "F", "G", "A", "Bb", "C"], "D")
    } else if index == 19 {
        (seq!["G", "A", "Bb", "C", "D", "Eb", "F"], "G")
    } else if index == 20 {
        (seq!["C", "D", "Eb", "F", "G", "Ab", "Bb"], "C")
    } else if index == 21 {
        (seq!["F", "G", "Ab", "Bb", "C", "Db", "Eb"], "F")
    } else if index == 22 {
        (seq!["Bb", "C", "Db", "Eb", "F", "Gb", "Ab"], "Bb")
    } else {
        (seq!["Eb", "F", "Gb", "Ab", "Bb", "Cb", "Db"], "Eb")
    }
}

/// The table index that a key number selects: the number itself when it names one
/// of the 24 keys, otherwise 0 (C major).
pub open spec fn spec_key_index(key: int) -> int {
    if 0 <= key < NUM_KEYS { key } else { 0 }
}

/// The note names of the scale that `key` selects.
pub open spec fn spec_key_scale(key: int) -> Seq<&'static str> {
    spec_key_entry(spec_key_index(key)).0
}

/// The name of the key numbered `key`: its table name, or "C Major" for a number
/// outside the table.
pub open spec fn spec_key_name(key: int) -> &'static str {
    if 0 <= key < NUM_KEYS { spec_key_entry(key).1 } else { "C Major" }
}

/// The note name for scale degree `note` (1..=12): degrees 8..=12 wrap around to 1..=5;
/// every other value gives the empty name.
pub open spec fn spec_note_name(note: int, note_names: Seq<&'static str>) -> &'static str {
    if 1 <= note <= 12 { note_names[(note - 1) % 7] } else { "" }
}

/// The mode of the key that `key` selects: "Minor" for the indices 12..24, else "Major".
pub open spec fn spec_mode_name(key: int) -> &'static str {
    if 12 <= key < NUM_KEYS { "Minor" } else { "Major" }
}

/// Returns entry `index` of the key table (see `spec_key_entry`).
pub fn key_entry(index: usize) -> (entry: (KeyScale, &'static str))
    requires
        index < NUM_KEYS,
    ensures
        entry.0.note_names@ == spec_key_entry(index as int).0,
        entry.1 == spec_key_entry(index as int).1,
{
    let entry = match index {
        0 => (KeyScale { note_names: ["C", "D", "E", "F", "G", "A", "B"] }, "C"),
        1 => (KeyScale { note_names: ["G", "A", "B", "C", "D", "E", "F#"] }, "G"),
        2 => (KeyScale { note_names: ["D", "E", "F#", "G", "A", "B", "C#"] }, "D"),
        3 => (KeyScale { note_names: ["A", "B", "C#", "D", "E", "F#", "G#"] }, "A"),
        4 => (KeyScale { note_names: ["E", "F#", "G#", "A", "B", "C#", "D#"] }, "E"),
        5 => (KeyScale { note_names: ["B", "C#", "D#", "E", "F#", "G#", "A#"] }, "B"),
        6 => (KeyScale { note_names: ["F#", "G#", "A#", "B", "C#", "D#", "E#"] }, "F#"),
        7 => (KeyScale { note_names: ["C#", "D#", "E#", "F#", "G#", "A#", "B#"] }, "C#"),
        8 => (KeyScale { note_names: ["F", "G", "A", "Bb", "C", "D", "E"] }, "F"),
        9 => (KeyScale { note_names: ["Bb", "C", "D", "Eb", "F", "G", "A"] }, "Bb"),
        10 => (KeyScale { note_names: ["Eb", "F", "G", "Ab", "Bb", "C", "D"] }, "Eb"),
        11 => (KeyScale { note_names: ["Ab", "Bb", "C", "Db", "Eb", "F", "G"] }, "Ab"),
        12 => (KeyScale { note_names: ["A", "B", "C", "D", "E", "F", "G"] }, "A"),
        13 => (KeyScale { note_names: ["E", "F#", "G", "A", "B", "C", "D"] }, "E"),
        14 => (KeyScale { note_names: ["B", "C#", "D", "E", "F#", "G", "A"] }, "B"),
        15 => (KeyScale { note_names: ["F#", "G#", "A", "B", "C#", "D", "E"] }, "F#"),
        16 => (KeyScale { note_names: ["C#", "D#", "E", "F#", "G#", "A", "B"] }, "C#"),
        17 => (KeyScale { note_names: ["G#", "A#", "B", "C#", "D#", "E", "F#"] }, "G#"),
        18 => (KeyScale { note_names: ["D", "E", "F", "G", "A", "Bb", "C"] }, "D"),
        19 => (KeyScale { note_names: ["G", "A", "Bb", "C", "D", "Eb", "F"] }, "G"),
        20 => (KeyScale { note_names: ["C", "D", "Eb", "F", "G", "Ab", "Bb"] }, "C"),
        21 => (KeyScale { note_names: ["F", "G", "Ab", "Bb", "C", "Db", "Eb"] }, "F"),
        22 => (KeyScale { note_names: ["Bb", "C", "Db", "Eb", "F", "Gb", "Ab"] }, "Bb"),
        _ => (KeyScale { note_names: ["Eb", "F", "Gb", "Ab", "Bb", "Cb", "Db"] }, "Eb"),
    };
    proof {
        assert(entry.0.note_names@ =~= spec_key_entry(index as int).0);
    }
    entry
}

/// Returns the table index for `key`: `key` itself when `0 <= key < 24`, otherwise 0.
pub fn key_index(key: i8) -> (index: usize)
    ensures
        index == spec_key_index(key as int),
        index < NUM_KEYS,
        0 <= key < NUM_KEYS ==> index == key,
        !(0 <= key < NUM_KEYS) ==> index == 0,
{
    if 0 <= key && key < 24 {
        key as usize
    } else {
        0
    }
}

/// Returns the note name from a given `scale` based on `note` (1..=12).
/// Degrees 8..=12 wrap around to the first five notes of the scale; any other
/// value gives the empty string.
pub fn get_note_name(note: i8, scale: KeyScale) -> (name: &'static str)
    ensures
        name == spec_note_name(note as int, scale.note_names@),
        1 <= note <= 7 ==> name == scale.note_names@[note - 1],
        8 <= note <= 12 ==> name == scale.note_names@[note - 8],
        !(1 <= note <= 12) ==> name == "",
{
    match note {
        1 => scale.note_names[0],
        2 => scale.note_names[1],
        3 => scale.note_names[2],
        4 => scale.note_names[3],
        5 => scale.note_names[4],
        6 => scale.note_names[5],
        7 => scale.note_names[6],
        8 => scale.note_names[0],
        9 => scale.note_names[1],
        10 => scale.note_names[2],
        11 => scale.note_names[3],
        12 => scale.note_names[4],
        _ => "",
    }
}

/// Returns the scale of one of the 24 keys based on `key` (0..=23).
/// Falls back to the first key (C major) if `key` is out of range.
pub fn get_key(key: i8) -> (scale: KeyScale)
    ensures
        scale.note_names@ == spec_key_scale(key as int),
{
    let index = key_index(key);
    key_entry(index).0
}

/// Returns the mode of the key: "Major" if its index is below 12, otherwise "Minor".
/// Keys out of range give "Major".
pub fn get_mode_name(key: i8) -> (mode: &'static str)
    ensures
        mode == spec_mode_name(key as int),
{
    if 0 <= key && key < 24 {
        if key < 12 {
            "Major"
        } else {
            "Minor"
        }
    } else {
        "Major"
    }
}

/// Returns the name of the key based on `key`.
/// Defaults to "C Major" if `key` is out of range.
pub fn get_key_name(key: i8) -> (name: &'static str)
    ensures
        name == spec_key_name(key as int),
{
    if 0 <= key && key < 24 {
        key_entry(key as usize).1
    } else {
        "C Major"
    }
}

/// Degree `n` (1..=7) names the `n`-th note of the scale, and a degree outside 1..=12 names
/// no note.
pub proof fn lemma_note_name_degrees(note: int, note_names: Seq<&'static str>)
    ensures
        1 <= note <= 7 ==> spec_note_name(note, note_names) == note_names[note - 1],
        !(1 <= note <= 12) ==> spec_note_name(note, note_names) == "",
{
}

/// Scale degrees past the seventh wrap around: degree `note + 7` names the same note
/// as degree `note`, for `note` in 1..=5.
pub proof fn lemma_note_name_wraps(note: int, note_names: Seq<&'static str>)
    requires
        1 <= note <= 5,
    ensures
        spec_note_name(note + 7, note_names) == spec_note_name(note, note_names),
{
}

/// The name of every key of the table is the name of the first degree (the tonic) of
/// its scale.
pub proof fn lemma_key_name_is_tonic(key: int)
    requires
        0 <= key < NUM_KEYS,
    ensures
        spec_key_name(key) == spec_note_name(1, spec_key_scale(key)),
{
}

/// A key number outside 0..24 falls back to C major in every lookup: it has key 0's
/// scale and mode ("Major"), and the name "C Major".
pub proof fn lemma_out_of_range_key_is_c_major(key: int)
    requires
        !(0 <= key < NUM_KEYS),
    ensures
        spec_key_scale(key) == spec_key_scale(0),
        spec_key_name(key) == "C Major",
        spec_mode_name(key) == spec_mode_name(0),
        spec_mode_name(key) == "Major",
{
}

/// Number of frequencies in each key's scale table: ten rows of seven scale degrees.
pub const SCALE_TABLE_LEN: usize = 70;

/// The scale-table row that `get_frequency` reads: row 2 in vocoder mode, row 4 otherwise.
pub open spec fn spec_reference_row(is_vocoder: bool) -> int {
    if is_vocoder { 2 } else { 4 }
}

/// Position in a key's scale table of scale degree `note` on the reference row.
pub open spec fn spec_frequency_table_index(note: int, is_vocoder: bool) -> int {
    spec_reference_row(is_vocoder) * 7 + note - 1
}

/// The table position is linear in the scale degree: degree 1 is the first entry of the
/// reference row (row 2 for the vocoder, row 4 otherwise), each degree up is the next
/// entry, and seven degrees up (an octave) is the same degree one row further on.
pub proof fn lemma_frequency_table_index_steps(note: int, is_vocoder: bool)
    ensures
        spec_frequency_table_index(1, true) == 14,
        spec_frequency_table_index(1, false) == 28,
        spec_frequency_table_index(note + 1, is_vocoder) == spec_frequency_table_index(note, is_vocoder) + 1,
        spec_frequency_table_index(note + 7, is_vocoder) == spec_frequency_table_index(note, is_vocoder) + 7,
        spec_frequency_table_index(note, false) == spec_frequency_table_index(note, true) + 14,
{
}

/// Where `get_frequency` reads the frequency of `note` in `key`: `None` when `key` is not
/// one of the 24 keys (the frequency is then 0), otherwise the key's table index and the
/// position of `note` on the reference row of its scale table.
pub fn frequency_table_position(key: i8, note: i8, is_vocoder: bool) -> (position: Option<(usize, usize)>)
    requires
        note >= 0,
        0 <= key < NUM_KEYS ==> spec_frequency_table_index(note as int, is_vocoder) < SCALE_TABLE_LEN,
    ensures
        position.is_none() <==> !(0 <= key < NUM_KEYS),
        position matches Some((key_idx, note_idx)) ==> key_idx == key && note_idx
            == spec_frequency_table_index(note as int, is_vocoder),
        position matches Some((key_idx, note_idx)) ==> note_idx == (if is_vocoder { 14int } else { 28int }) + note as int - 1,
{
    let offset: usize = if is_vocoder { 0 } else { 2 };
    let reference_row: usize = 2 + offset;
    let note_index: usize = reference_row * 7 + note as usize - 1;
    if key < 0 || key >= 24 {
        return None;
    }
    Some((key as usize, note_index))
}

/// Index of a note letter in the sequence C D E F G A B, or -1 for any other character.
pub open spec fn letter_index(letter: char) -> int {
    if letter == 'C' { 0 } else if letter == 'D' { 1 } else if letter == 'E' { 2 }
    else if letter == 'F' { 3 } else if letter == 'G' { 4 } else if letter == 'A' { 5 }
    else if letter == 'B' { 6 } else { -1 }
}

/// Semitones of a natural note above C.
pub open spec fn letter_pitch(letter: char) -> int {
    if letter == 'C' { 0 } else if letter == 'D' { 2 } else if letter == 'E' { 4 }
    else if letter == 'F' { 5 } else if letter == 'G' { 7 } else if letter == 'A' { 9 }
    else { 11 }
}

/// Accidental of a note name: +1 for a sharp ("#"), -1 for a flat ("b"), 0 for a natural.
pub open spec fn accidental(name: Seq<char>) -> int {
    if name.len() == 2 && name[1] == '#' { 1 } else if name.len() == 2 && name[1] == 'b' { -1 } else { 0 }
}

/// A note name is a letter A..G, alone or followed by one sharp or flat.
pub open spec fn well_spelled(name: Seq<char>) -> bool {
    &&& 1 <= name.len() <= 2
    &&& letter_index(name[0]) >= 0
    &&& name.len() == 2 ==> (name[1] == '#' || name[1] == 'b')
}

/// Pitch class (semitones above C, 0..12) of a note name.
pub open spec fn pitch_class(name: Seq<char>) -> int {
    (letter_pitch(name[0]) + accidental(name)) % 12
}

/// Semitone step from degree `i` to degree `i + 1` (0-based) of a major scale: 2 2 1 2 2 2.
pub open spec fn major_step(i: int) -> int {
    if i == 2 || i == 6 { 1 } else { 2 }
}

/// Semitone step from degree `i` to degree `i + 1` (0-based) of a natural minor scale:
/// 2 1 2 2 1 2.
pub open spec fn minor_step(i: int) -> int {
    if i == 1 || i == 4 { 1 } else { 2 }
}

/// Key signature of table entry `key`: the number of sharps (positive) or flats (negative).
/// Major keys run C G D A E B F# C# (0 to 7 sharps), then F Bb Eb Ab (1 to 4 flats);
/// minor keys A E B F# C# G# (0 to 5 sharps), then D G C F Bb Eb (1 to 6 flats).
pub open spec fn key_signature(key: int) -> int {
    if key < 8 { key } else if key < 12 { 7 - key } else if key < 18 { key - 12 } else { 17 - key }
}

/// Number of names in `names[0..7]` whose accidental is `sign`.
pub open spec fn count_accidentals(names: Seq<&'static str>, sign: int) -> int {
    (if accidental(names[0]@) == sign { 1int } else { 0 })
        + (if accidental(names[1]@) == sign { 1int } else { 0 })
        + (if accidental(names[2]@) == sign { 1int } else { 0 })
        + (if accidental(names[3]@) == sign { 1int } else { 0 })
        + (if accidental(names[4]@) == sign { 1int } else { 0 })
        + (if accidental(names[5]@) == sign { 1int } else { 0 })
        + (if accidental(names[6]@) == sign { 1int } else { 0 })
}

/// `names` is a seven-note scale of the given mode and key signature: well-formed names on
/// consecutive letters, the tonic a fifth-multiple of C set by the signature (a minor key's
/// tonic a major sixth above its relative major's), semitone steps 2 2 1 2 2 2 (major) or
/// 2 1 2 2 1 2 (natural minor), and exactly as many sharps or flats as the signature.
pub open spec fn scale_follows_mode(names: Seq<&'static str>, minor: bool, signature: int) -> bool {
    &&& names.len() == 7
    &&& forall|i: int| 0 <= i < 7 ==> well_spelled(#[trigger] names[i]@)
    &&& forall|i: int| 0 <= i < 6 ==> letter_index(#[trigger] names[i + 1]@[0])
        == (letter_index(names[i]@[0]) + 1) % 7
    &&& forall|i: int| 0 <= i < 6 ==> (pitch_class(#[trigger] names[i + 1]@) - pitch_class(names[i]@) + 12) % 12
        == (if minor { minor_step(i) } else { major_step(i) })
    &&& pitch_class(names[0]@) == (7 * signature + (if minor { 9int } else { 0 })) % 12
    &&& count_accidentals(names, 1) == (if signature > 0 { signature } else { 0 })
    &&& count_accidentals(names, -1) == (if signature < 0 { -signature } else { 0 })
}

/// The scale of table entry 0 follows its mode.
proof fn lemma_scale_of_key_0()
    ensures
        scale_follows_mode(spec_key_scale(0), false, key_signature(0)),
{
    reveal_strlit("A");
    reveal_strlit("B");
    reveal_strlit("C");
    reveal_strlit("D");
    reveal_strlit("E");
    reveal_strlit("F");
    reveal_strlit("G");
}

/// The scale of table entry 1 follows its mode.
proof fn lemma_scale_of_key_1()
    ensures
        scale_follows_mode(spec_key_scale(1), false, key_signature(1)),
{
    reveal_strlit("A");
    reveal_strlit("B");
    reveal_strlit("C");
    reveal_strlit("D");
    reveal_strlit("E");
    reveal_strlit("F#");
    reveal_strlit("G");
}

/// The scale of table entry 2 follows its mode.
proof fn lemma_scale_of_key_2()
    ensures
        scale_follows_mode(spec_key_scale(2), false, key_signature(2)),
{
    reveal_strlit("A");
    reveal_strlit("B");
    reveal_strlit("C#");
    reveal_strlit("D");
    reveal_strlit("E");
    reveal_strlit("F#");
    reveal_strlit("G");
}

/// The scale of table entry 3 follows its mode.
proof fn lemma_scale_of_key_3()
    ensures
        scale_follows_mode(spec_key_scale(3), false, key_signature(3)),
{
    reveal_strlit("A");
    reveal_strlit("B");
    reveal_strlit("C#");
    reveal_strlit("D");
    reveal_strlit("E");
    reveal_strlit("F#");
    reveal_strlit("G#");
}

/// The scale of table entry 4 follows its mode.
proof fn lemma_scale_of_key_4()
    ensures
        scale_follows_mode(spec_key_scale(4), false, key_signature(4)),
{
    reveal_strlit("A");
    reveal_strlit("B");
    reveal_strlit("C#");
    reveal_strlit("D#");
    reveal_strlit("E");
    reveal_strlit("F#");
    reveal_strlit("G#");
}

/// The scale of table entry 5 follows its mode.
proof fn lemma_scale_of_key_5()
    ensures
        scale_follows_mode(spec_key_scale(5), false, key_signature(5)),
{
    reveal_strlit("A#");
    reveal_strlit("B");
    reveal_strlit("C#");
    reveal_strlit("D#");
    reveal_strlit("E");
    reveal_strlit("F#");
    reveal_strlit("G#");
}

/// The scale of table entry 6 follows its mode.
proof fn lemma_scale_of_key_6()
    ensures
        scale_follows_mode(spec_key_scale(6), false, key_signature(6)),
{
    reveal_strlit("A#");
    reveal_strlit("B");
    reveal_strlit("C#");
    reveal_strlit("D#");
    reveal_strlit("E#");
    reveal_strlit("F#");
    reveal_strlit("G#");
}

/// The scale of table entry 7 follows its mode.
proof fn lemma_scale_of_key_7()
    ensures
        scale_follows_mode(spec_key_scale(7), false, key_signature(7)),
{
    reveal_strlit("A#");
    reveal_strlit("B#");
    reveal_strlit("C#");
    reveal_strlit("D#");
    reveal_strlit("E#");
    reveal_strlit("F#");
    reveal_strlit("G#");
}

/// The scale of table entry 8 follows its mode.
proof fn lemma_scale_of_key_8()
    ensures
        scale_follows_mode(spec_key_scale(8), false, key_signature(8)),
{
    reveal_strlit("A");
    reveal_strlit("Bb");
    reveal_strlit("C");
    reveal_strlit("D");
    reveal_strlit("E");
    reveal_strlit("F");
    reveal_strlit("G");
}

/// The scale of table entry 9 follows its mode.
proof fn lemma_scale_of_key_9()
    ensures
        scale_follows_mode(spec_key_scale(9), false, key_signature(9)),
{
    reveal_strlit("A");
    reveal_strlit("Bb");
    reveal_strlit("C");
    reveal_strlit("D");
    reveal_strlit("Eb");
    reveal_strlit("F");
    reveal_strlit("G");
}

/// The scale of table entry 10 follows its mode.
proof fn lemma_scale_of_key_10()
    ensures
        scale_follows_mode(spec_key_scale(10), false, key_signature(10)),
{
    reveal_strlit("Ab");
    reveal_strlit("Bb");
    reveal_strlit("C");
    reveal_strlit("D");
    reveal_strlit("Eb");
    reveal_strlit("F");
    reveal_strlit("G");
}

/// The scale of table entry 11 follows its mode.
proof fn lemma_scale_of_key_11()
    ensures
        scale_follows_mode(spec_key_scale(11), false, key_signature(11)),
{
    reveal_strlit("Ab");
    reveal_strlit("Bb");
    reveal_strlit("C");
    reveal_strlit("Db");
    reveal_strlit("Eb");
    reveal_strlit("F");
    reveal_strlit("G");
}

/// The scale of table entry 12 follows its mode.
proof fn lemma_scale_of_key_12()
    ensures
        scale_follows_mode(spec_key_scale(12), true, key_signature(12)),
{
    reveal_strlit("A");
    reveal_strlit("B");
    reveal_strlit("C");
    reveal_strlit("D");
    reveal_strlit("E");
    reveal_strlit("F");
    reveal_strlit("G");
}

/// The scale of table entry 13 follows its mode.
proof fn lemma_scale_of_key_13()
    ensures
        scale_follows_mode(spec_key_scale(13), true, key_signature(13)),
{
    reveal_strlit("A");
    reveal_strlit("B");
    reveal_strlit("C");
    reveal_strlit("D");
    reveal_strlit("E");
    reveal_strlit("F#");
    reveal_strlit("G");
}

/// The scale of table entry 14 follows its mode.
proof fn lemma_scale_of_key_14()
    ensures
        scale_follows_mode(spec_key_scale(14), true, key_signature(14)),
{
    reveal_strlit("A");
    reveal_strlit("B");
    reveal_strlit("C#");
    reveal_strlit("D");
    reveal_strlit("E");
    reveal_strlit("F#");
    reveal_strlit("G");
}

/// The scale of table entry 15 follows its mode.
proof fn lemma_scale_of_key_15()
    ensures
        scale_follows_mode(spec_key_scale(15), true, key_signature(15)),
{
    reveal_strlit("A");
    reveal_strlit("B");
    reveal_strlit("C#");
    reveal_strlit("D");
    reveal_strlit("E");
    reveal_strlit("F#");
    reveal_strlit("G#");
}

/// The scale of table entry 16 follows its mode.
proof fn lemma_scale_of_key_16()
    ensures
        scale_follows_mode(spec_key_scale(16), true, key_signature(16)),
{
    reveal_strlit("A");
    reveal_strlit("B");
    reveal_strlit("C#");
    reveal_strlit("D#");
    reveal_strlit("E");
    reveal_strlit("F#");
    reveal_strlit("G#");
}

/// The scale of table entry 17 follows its mode.
proof fn lemma_scale_of_key_17()
    ensures
        scale_follows_mode(spec_key_scale(17), true, key_signature(17)),
{
    reveal_strlit("A#");
    reveal_strlit("B");
    reveal_strlit("C#");
    reveal_strlit("D#");
    reveal_strlit("E");
    reveal_strlit("F#");
    reveal_strlit("G#");
}

/// The scale of table entry 18 follows its mode.
proof fn lemma_scale_of_key_18()
    ensures
        scale_follows_mode(spec_key_scale(18), true, key_signature(18)),
{
    reveal_strlit("A");
    reveal_strlit("Bb");
    reveal_strlit("C");
    reveal_strlit("D");
    reveal_strlit("E");
    reveal_strlit("F");
    reveal_strlit("G");
}

/// The scale of table entry 19 follows its mode.
proof fn lemma_scale_of_key_19()
    ensures
        scale_follows_mode(spec_key_scale(19), true, key_signature(19)),
{
    reveal_strlit("A");
    reveal_strlit("Bb");
    reveal_strlit("C");
    reveal_strlit("D");
    reveal_strlit("Eb");
    reveal_strlit("F");
    reveal_strlit("G");
}

/// The scale of table entry 20 follows its mode.
proof fn lemma_scale_of_key_20()
    ensures
        scale_follows_mode(spec_key_scale(20), true, key_signature(20)),
{
    reveal_strlit("Ab");
    reveal_strlit("Bb");
    reveal_strlit("C");
    reveal_strlit("D");
    reveal_strlit("Eb");
    reveal_strlit("F");
    reveal_strlit("G");
}

/// The scale of table entry 21 follows its mode.
proof fn lemma_scale_of_key_21()
    ensures
        scale_follows_mode(spec_key_scale(21), true, key_signature(21)),
{
    reveal_strlit("Ab");
    reveal_strlit("Bb");
    reveal_strlit("C");
    reveal_strlit("Db");
    reveal_strlit("Eb");
    reveal_strlit("F");
    reveal_strlit("G");
}

/// The scale of table entry 22 follows its mode.
proof fn lemma_scale_of_key_22()
    ensures
        scale_follows_mode(spec_key_scale(22), true, key_signature(22)),
{
    reveal_strlit("Ab");
    reveal_strlit("Bb");
    reveal_strlit("C");
    reveal_strlit("Db");
    reveal_strlit("Eb");
    reveal_strlit("F");
    reveal_strlit("Gb");
}

/// The scale of table entry 23 follows its mode.
proof fn lemma_scale_of_key_23()
    ensures
        scale_follows_mode(spec_key_scale(23), true, key_signature(23)),
{
    reveal_strlit("Ab");
    reveal_strlit("Bb");
    reveal_strlit("Cb");
    reveal_strlit("Db");
    reveal_strlit("Eb");
    reveal_strlit("F");
    reveal_strlit("Gb");
}

/// Every scale of the key table is spelled as its key and mode demand: the major keys
/// 0..12 and the natural minor keys 12..24 follow their mode's step pattern from a tonic
/// and with a number of sharps or flats set by the key signature (see `scale_follows_mode`).
pub proof fn lemma_key_scales_follow_their_mode(key: int)
    requires
        0 <= key < NUM_KEYS,
    ensures
        scale_follows_mode(spec_key_scale(key), key >= 12, key_signature(key)),
{
    if key == 0 {
        lemma_scale_of_key_0();
    } else if key == 1 {
        lemma_scale_of_key_1();
    } else if key == 2 {
        lemma_scale_of_key_2();
    } else if key == 3 {
        lemma_scale_of_key_3();
    } else if key == 4 {
        lemma_scale_of_key_4();
    } else if key == 5 {
        lemma_scale_of_key_5();
    } else if key == 6 {
        lemma_scale_of_key_6();
    } else if key == 7 {
        lemma_scale_of_key_7();
    } else if key == 8 {
        lemma_scale_of_key_8();
    } else if key == 9 {
        lemma_scale_of_key_9();
    } else if key == 10 {
        lemma_scale_of_key_10();
    } else if key == 11 {
        lemma_scale_of_key_11();
    } else if key == 12 {
        lemma_scale_of_key_12();
    } else if key == 13 {
        lemma_scale_of_key_13();
    } else if key == 14 {
        lemma_scale_of_key_14();
    } else if key == 15 {
        lemma_scale_of_key_15();
    } else if key == 16 {
        lemma_scale_of_key_16();
    } else if key == 17 {
        lemma_scale_of_key_17();
    } else if key == 18 {
        lemma_scale_of_key_18();
    } else if key == 19 {
        lemma_scale_of_key_19();
    } else if key == 20 {
        lemma_scale_of_key_20();
    } else if key == 21 {
        lemma_scale_of_key_21();
    } else if key == 22 {
        lemma_scale_of_key_22();
    } else if key == 23 {
        lemma_scale_of_key_23();
    }
}

/// Semitones from the tonic up to the third degree of a scale.
pub open spec fn third_interval(names: Seq<&'static str>) -> int {
    (pitch_class(names[2]@) - pitch_class(names[0]@) + 12) % 12
}

/// A scale that follows a mode has a minor third (3 semitones) above its tonic when the
/// mode is minor and a major third (4 semitones) when it is major.
pub proof fn lemma_mode_third(names: Seq<&'static str>, minor: bool, signature: int)
    requires
        scale_follows_mode(names, minor, signature),
    ensures
        third_interval(names) == (if minor { 3int } else { 4 }),
{
    let p0 = pitch_class(names[0]@);
    let p1 = pitch_class(names[1]@);
    let p2 = pitch_class(names[2]@);
    let d1 = (p1 - p0 + 12) % 12;
    let d2 = (p2 - p1 + 12) % 12;
    assert(d1 == (if minor { minor_step(0) } else { major_step(0) }));
    assert(d2 == (if minor { minor_step(1) } else { major_step(1) }));
    assert((p2 - p0 + 12) % 12 == (d1 + d2) % 12) by (nonlinear_arith)
        requires
            d1 == (p1 - p0 + 12) % 12,
            d2 == (p2 - p1 + 12) % 12,
            0 <= p0 < 12,
            0 <= p1 < 12,
            0 <= p2 < 12,
    ;
}

/// The mode name of a key of the table tells the quality of its scale: "Minor" exactly
/// for the keys whose scale has a minor third (3 semitones) above the tonic, "Major" for
/// those with a major third (4 semitones).
pub proof fn lemma_mode_name_matches_scale(key: int)
    requires
        0 <= key < NUM_KEYS,
    ensures
        third_interval(spec_key_scale(key)) == 3 ==> spec_mode_name(key) == "Minor",
        third_interval(spec_key_scale(key)) == 4 ==> spec_mode_name(key) == "Major",
        third_interval(spec_key_scale(key)) == 3 || third_interval(spec_key_scale(key)) == 4,
{
    lemma_key_scales_follow_their_mode(key);
    lemma_mode_third(spec_key_scale(key), key >= 12, key_signature(key));
}

} // verus!
