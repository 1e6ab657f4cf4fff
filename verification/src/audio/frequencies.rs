use vstd::prelude::*;

verus! {

/// Number of notes in the chromatic note table: C0 through B8.
pub const NUM_NOTES: usize = 108;

/// Frequencies of the chromatic notes C0 (16.35 Hz) through B8 (7902.13 Hz) in equal
/// temperament with A4 = 440 Hz, in hundredths of a hertz, one row per octave.
pub open spec fn spec_note_table() -> Seq<u32> {
    seq![
        1635, 1732, 1835, 1945, 2060, 2183, 2312, 2450, 2596, 2750, 2914, 3087,
        3270, 3465, 3671, 3889, 4120, 4365, 4625, 4900, 5191, 5500, 5827, 6174,
        6541, 6930, 7342, 7778, 8241, 8731, 9250, 9800, 10383, 11000, 11654, 12347,
        13081, 13859, 14683, 15556, 16481, 17461, 18500, 19600, 20765, 22000, 23308, 24694,
        26163, 27718, 29366, 31113, 32963, 34923, 36999, 39200, 41530, 44000, 46616, 49388,
        52325, 55437, 58733, 62225, 65926, 69846, 73999, 78399, 83061, 88000, 93233, 98777,
        104650, 110873, 117466, 124451, 131851, 139691, 147998, 156798, 166122, 176000, 186466, 197553,
        209300, 221746, 234932, 248902, 263702, 279383, 295996, 313596, 332244, 352000, 372931, 395107,
        418601, 443492, 469864, 497803, 527404, 558765, 591991, 627193, 664488, 704000, 745862, 790213,
    ]
}

/// Distance between two frequencies.
pub open spec fn distance(a: int, b: int) -> int {
    if a >= b { a - b } else { b - a }
}

/// `index` is where `table` is nearest to `target`: no entry is closer, and every
/// entry before it is farther (ties go to the earliest entry).
pub open spec fn is_nearest_index(table: Seq<u32>, target: int, index: int) -> bool {
    &&& 0 <= index < table.len()
    &&& forall|j: int| 0 <= j < table.len() ==> distance(table[index] as int, target) <= distance(table[j] as int, target)
    &&& forall|j: int| 0 <= j < index ==> distance(table[index] as int, target) < distance(table[j] as int, target)
}

/// The entries of `table` increase strictly.
pub open spec fn strictly_increasing(table: Seq<u32>) -> bool {
    forall|i: int, j: int| 0 <= i < j < table.len() ==> table[i] < table[j]
}

/// Returns the chromatic note table (see `spec_note_table`).
pub fn note_table() -> (table: [u32; 108])
    ensures
        table@ == spec_note_table(),
{
    let table: [u32; 108] = [
        1635, 1732, 1835, 1945, 2060, 2183, 2312, 2450, 2596, 2750, 2914, 3087,
        3270, 3465, 3671, 3889, 4120, 4365, 4625, 4900, 5191, 5500, 5827, 6174,
        6541, 6930, 7342, 7778, 8241, 8731, 9250, 9800, 10383, 11000, 11654, 12347,
        13081, 13859, 14683, 15556, 16481, 17461, 18500, 19600, 20765, 22000, 23308, 24694,
        26163, 27718, 29366, 31113, 32963, 34923, 36999, 39200, 41530, 44000, 46616, 49388,
        52325, 55437, 58733, 62225, 65926, 69846, 73999, 78399, 83061, 88000, 93233, 98777,
        104650, 110873, 117466, 124451, 131851, 139691, 147998, 156798, 166122, 176000, 186466, 197553,
        209300, 221746, 234932, 248902, 263702, 279383, 295996, 313596, 332244, 352000, 372931, 395107,
        418601, 443492, 469864, 497803, 527404, 558765, 591991, 627193, 664488, 704000, 745862, 790213,
    ];
    proof {
        assert(table@ =~= spec_note_table());
    }
    table
}

/// Index of the entry of `table` nearest to `target`; ties go to the earliest entry.
pub fn nearest_index(table: &[u32], target: u32) -> (index: usize)
    requires
        table@.len() > 0,
    ensures
        is_nearest_index(table@, target as int, index as int),
        index < table@.len(),
        forall|j: int| 0 <= j < table@.len() ==> distance(table@[index as int] as int, target as int)
            <= distance(table@[j] as int, target as int),
        forall|j: int| 0 <= j < index ==> distance(table@[index as int] as int, target as int)
            < distance(table@[j] as int, target as int),
{
    let mut best: usize = 0;
    let mut best_distance: u32 = if table[0] >= target { table[0] - target } else { target - table[0] };
    let mut i: usize = 1;
    while i < table.len()
        invariant
            1 <= i <= table@.len(),
            best < i,
            best_distance == distance(table@[best as int] as int, target as int),
            forall|j: int| 0 <= j < i ==> best_distance <= distance(table@[j] as int, target as int),
            forall|j: int| 0 <= j < best ==> best_distance < distance(table@[j] as int, target as int),
        decreases table@.len() - i,
    {
        let d = if table[i] >= target { table[i] - target } else { target - table[i] };
        if d < best_distance {
            best = i;
            best_distance = d;
        }
        i = i + 1;
    }
    best
}

/// Returns the frequency in `scale_frequencies` nearest to `frequency` (all in hundredths
/// of a hertz); of two equally near entries, the earlier one.
pub fn find_nearest_note_in_key(frequency: u32, scale_frequencies: &[u32]) -> (nearest: u32)
    requires
        scale_frequencies@.len() > 0,
    ensures
        exists|i: int| is_nearest_index(scale_frequencies@, frequency as int, i) && nearest == scale_frequencies@[i],
{
    let index = nearest_index(scale_frequencies, frequency);
    scale_frequencies[index]
}

/// Returns the frequency of the chromatic note (C0..=B8) nearest to `frequency`, both in
/// hundredths of a hertz. Frequencies below C0 give C0 and above B8 give B8.
pub fn find_nearest_note_frequency(frequency: u32) -> (nearest: u32)
    ensures
        exists|i: int| is_nearest_index(spec_note_table(), frequency as int, i) && nearest == spec_note_table()[i],
        frequency <= spec_note_table()[0] ==> nearest == spec_note_table()[0],
        frequency >= spec_note_table()[NUM_NOTES - 1] ==> nearest == spec_note_table()[NUM_NOTES - 1],
        (exists|j: int| 0 <= j < NUM_NOTES && spec_note_table()[j] == frequency) ==> nearest == frequency,
{
    let table = note_table();
    let index = nearest_index(&table, frequency);
    proof {
        lemma_note_table_strictly_increasing();
        if frequency <= spec_note_table()[0] {
            lemma_nearest_below_range(spec_note_table(), frequency as int, index as int);
        }
        if frequency >= spec_note_table()[NUM_NOTES - 1] {
            lemma_nearest_above_range(spec_note_table(), frequency as int, index as int);
        }
        if exists|j: int| 0 <= j < NUM_NOTES && spec_note_table()[j] == frequency {
            let j = choose|j: int| 0 <= j < NUM_NOTES && spec_note_table()[j] == frequency;
            lemma_nearest_exact_match(spec_note_table(), frequency as int, index as int, j);
        }
    }
    table[index]
}

/// The nearest entry is unique: two indices that are both nearest to `target` coincide.
pub proof fn lemma_nearest_index_unique(table: Seq<u32>, target: int, i: int, k: int)
    requires
        is_nearest_index(table, target, i),
        is_nearest_index(table, target, k),
    ensures
        i == k,
{
    let di = distance(table[i] as int, target);
    let dk = distance(table[k] as int, target);
    assert(di <= dk && dk <= di);
}

/// A frequency that is itself in the table is its own nearest note.
pub proof fn lemma_nearest_exact_match(table: Seq<u32>, target: int, index: int, j: int)
    requires
        is_nearest_index(table, target, index),
        0 <= j < table.len(),
        table[j] == target,
    ensures
        table[index] == target,
{
}

/// In an increasing table, a frequency at or below the first entry snaps to the first entry.
pub proof fn lemma_nearest_below_range(table: Seq<u32>, target: int, index: int)
    requires
        strictly_increasing(table),
        is_nearest_index(table, target, index),
        target <= table[0],
    ensures
        index == 0,
{
    if index > 0 {
        assert(table[0] < table[index]);
    }
}

/// In an increasing table, a frequency at or above the last entry snaps to the last entry.
pub proof fn lemma_nearest_above_range(table: Seq<u32>, target: int, index: int)
    requires
        strictly_increasing(table),
        is_nearest_index(table, target, index),
        target >= table[table.len() - 1],
    ensures
        index == table.len() - 1,
{
    let last = table.len() - 1;
    if index < last {
        assert(table[index] < table[last]);
        assert(distance(table[last] as int, target) < distance(table[index] as int, target));
    }
}

/// The chromatic note table rises strictly from C0 to B8.
pub proof fn lemma_note_table_strictly_increasing()
    ensures
        strictly_increasing(spec_note_table()),
{
    let t = spec_note_table();
    assert forall|i: int| 0 <= i < NUM_NOTES - 1 implies #[trigger] t[i] < t[i + 1] by {
    }
    assert forall|i: int, j: int| 0 <= i < j < t.len() implies t[i] < t[j] by {
        lemma_increasing_steps(t, i, j);
    }
}

/// The note table is equal temperament anchored at A4 = 440 Hz (entry 57 is 44000):
/// neighbouring entries are a semitone apart, their ratio 2^(1/12) = 1.059463... to within
/// the rounding to whole hundredths of a hertz, and entries twelve apart (an octave) differ
/// by a factor of two to within that rounding.
pub proof fn lemma_note_table_equal_temperament()
    ensures
        spec_note_table().len() == NUM_NOTES,
        spec_note_table()[57] == 44000,
        forall|i: int| 0 <= i < NUM_NOTES - 1 ==> distance(
            1000000 * (#[trigger] spec_note_table()[i + 1]) as int,
            1059463 * spec_note_table()[i] as int,
        ) <= 1000000,
        forall|i: int| 0 <= i < NUM_NOTES - 12 ==> distance(
            2 * (#[trigger] spec_note_table()[i]) as int,
            spec_note_table()[i + 12] as int,
        ) <= 2,
{
    let t = spec_note_table();
    assert forall|i: int| 0 <= i < NUM_NOTES - 1 implies distance(
        1000000 * (#[trigger] t[i + 1]) as int,
        1059463 * t[i] as int,
    ) <= 1000000 by {
    }
    assert forall|i: int| 0 <= i < NUM_NOTES - 12 implies distance(
        2 * (#[trigger] t[i]) as int,
        t[i + 12] as int,
    ) <= 2 by {
    }
}

/// Every note of the table is its own nearest note.
pub proof fn lemma_note_is_own_nearest(i: int)
    requires
        0 <= i < NUM_NOTES,
    ensures
        is_nearest_index(spec_note_table(), spec_note_table()[i] as int, i),
{
    lemma_note_table_strictly_increasing();
    let t = spec_note_table();
    assert forall|j: int| 0 <= j < i implies distance(t[i] as int, t[i] as int) < distance(
        t[j] as int,
        t[i] as int,
    ) by {
        assert(t[j] < t[i]);
    }
}

/// Strict increase between neighbours carries over to any two entries.
proof fn lemma_increasing_steps(t: Seq<u32>, i: int, j: int)
    requires
        0 <= i < j < t.len(),
        forall|k: int| 0 <= k < t.len() - 1 ==> #[trigger] t[k] < t[k + 1],
    ensures
        t[i] < t[j],
    decreases j - i,
{
    if j > i + 1 {
        lemma_increasing_steps(t, i, j - 1);
        assert(t[j - 1] < t[j]);
    }
}

} // verus!
