use vstd::prelude::*;

verus! {

/// The number of harmonics that `collect_harmonics` lists.
pub const NUM_HARMONICS: usize = 8;

/// Bin index of the `n`-th harmonic (1-based) of a fundamental at `fundamental_index`.
pub open spec fn harmonic_bin(fundamental_index: int, n: int) -> int {
    fundamental_index * n
}

/// Returns the bin indices of the first eight harmonics of the fundamental
/// at `fundamental_index`: entry `n - 1` holds `fundamental_index * n`.
pub fn collect_harmonics(fundamental_index: usize) -> (harmonics: [usize; 8])
    requires
        fundamental_index * 8 <= usize::MAX,
    ensures
        forall|i: int| 0 <= i < 8 ==> #[trigger] harmonics[i] == harmonic_bin(fundamental_index as int, i + 1),
        forall|i: int| 0 <= i < 8 ==> #[trigger] harmonics[i] == fundamental_index * (i + 1),
{
    let mut harmonics: [usize; 8] = [0; 8];
    let mut n: usize = 1;
    while n <= 8
        invariant
            1 <= n <= 9,
            fundamental_index * 8 <= usize::MAX,
            forall|i: int| 0 <= i < n - 1 ==> #[trigger] harmonics[i] == harmonic_bin(fundamental_index as int, i + 1),
        decreases 9 - n,
    {
        assert(fundamental_index * n <= fundamental_index * 8) by (nonlinear_arith)
            requires n <= 8;
        let harmonic_index = fundamental_index * n;
        harmonics[n - 1] = harmonic_index;
        n = n + 1;
    }
    harmonics
}

/// Rust's remainder on signed integers: the result takes the sign of the dividend.
/// (`%` in specifications is Euclidean, its result never negative.)
pub open spec fn truncated_rem(a: int, b: int) -> int {
    if a >= 0 { a % b } else { -((-a) % b) }
}

/// The hold counter of the sample-rate reducer after one sample: it counts up and
/// wraps around `factor`; a factor of zero leaves it where it is.
pub open spec fn next_hold_counter(counter: int, factor: int) -> int {
    if factor != 0 { truncated_rem(counter + 1, factor) } else { counter }
}

/// The hold counter after `steps` samples, starting from `counter`.
pub open spec fn hold_counter_after(counter: int, factor: int, steps: nat) -> int
    decreases steps,
{
    if steps == 0 {
        counter
    } else {
        next_hold_counter(hold_counter_after(counter, factor, (steps - 1) as nat), factor)
    }
}

/// Sample-rate reduction by sample-and-hold: at the start of each hold cycle
/// (`hold_counter == 0`) the incoming sample becomes the held value; the held value is
/// returned, and the counter advances, wrapping around `factor` (a factor of zero leaves
/// the counter where it is).
pub fn sample_rate_reduce<T: Copy>(sample: T, factor: i8, hold_counter: &mut i32, held_value: &mut T) -> (output: T)
    requires
        factor != 0 ==> *old(hold_counter) < i32::MAX,
    ensures
        *final(held_value) == (if *old(hold_counter) == 0 { sample } else { *old(held_value) }),
        output == *final(held_value),
        *final(hold_counter) == next_hold_counter(*old(hold_counter) as int, factor as int),
{
    if *hold_counter == 0 {
        *held_value = sample;
    }
    if factor != 0 {
        *hold_counter = (*hold_counter + 1) % (factor as i32);
    }
    *held_value
}

/// State `(hold_counter, held_value)` of the sample-rate reducer after `calls` calls of
/// `sample_rate_reduce` with the samples `samples[0]`, `samples[1]`, ... and the same
/// `factor`, starting from `counter` and `held`.
pub open spec fn reducer_state<T>(samples: Seq<T>, factor: int, counter: int, held: T, calls: nat) -> (int, T)
    decreases calls,
{
    if calls == 0 {
        (counter, held)
    } else {
        let prev = reducer_state(samples, factor, counter, held, (calls - 1) as nat);
        (next_hold_counter(prev.0, factor), if prev.0 == 0 { samples[calls - 1] } else { prev.1 })
    }
}

/// The counter of the reducer's state follows `hold_counter_after`.
proof fn lemma_reducer_counter<T>(samples: Seq<T>, factor: int, counter: int, held: T, calls: nat)
    ensures
        reducer_state(samples, factor, counter, held, calls).0 == hold_counter_after(counter, factor, calls),
    decreases calls,
{
    if calls > 0 {
        lemma_reducer_counter(samples, factor, counter, held, (calls - 1) as nat);
    }
}

/// Sample-and-hold: starting a fresh hold cycle, call `k` (counting from 0) returns the
/// sample taken at the start of its cycle, `samples[k - k % factor]`, so each taken
/// sample is repeated for `|factor|` outputs, and leaves the counter at
/// `(k + 1) % factor`. With a factor of 1 every call returns its own sample.
pub proof fn lemma_sample_and_hold<T>(samples: Seq<T>, factor: int, held: T, k: nat)
    requires
        factor != 0,
        k < samples.len(),
    ensures
        reducer_state(samples, factor, 0, held, k + 1).1 == samples[k - (k as int) % factor],
        reducer_state(samples, factor, 0, held, k + 1).0 == (k + 1) as int % factor,
        factor == 1 ==> reducer_state(samples, factor, 0, held, k + 1).1 == samples[k as int],
    decreases k,
{
    lemma_reducer_counter(samples, factor, 0, held, k);
    lemma_reducer_counter(samples, factor, 0, held, k + 1);
    lemma_hold_counter_cycles(factor, k);
    lemma_hold_counter_cycles(factor, k + 1);
    let r = (k as int) % factor;
    lemma_mod_by_magnitude(k as int, factor);
    if r != 0 {
        lemma_mod_predecessor(k as int, factor);
        lemma_sample_and_hold(samples, factor, held, (k - 1) as nat);
    }
    if factor == 1 {
        assert(r == 0);
    }
}

/// Stepping back one from a number that is not a multiple of `d` steps its remainder
/// back by one.
proof fn lemma_mod_predecessor(k: int, d: int)
    requires
        d != 0,
        k > 0,
        k % d != 0,
    ensures
        (k - 1) % d == k % d - 1,
{
    let m: int = if d < 0 { -d } else { d };
    lemma_mod_by_magnitude(k, d);
    lemma_mod_by_magnitude(k - 1, d);
    vstd::arithmetic::div_mod::lemma_fundamental_div_mod(k, m);
    let q = k / m;
    let r = k % m;
    assert(k - 1 == m * q + (r - 1));
    vstd::arithmetic::div_mod::lemma_fundamental_div_mod_converse(k - 1, m, q, r - 1);
}

/// Starting a fresh hold cycle (counter 0), the counter after `steps` samples is
/// `steps` modulo the magnitude of `factor`: the held value is refreshed exactly on every
/// `|factor|`-th sample and kept for the samples in between.
pub proof fn lemma_hold_counter_cycles(factor: int, steps: nat)
    requires
        factor != 0,
    ensures
        hold_counter_after(0, factor, steps) == (steps as int) % factor,
        hold_counter_after(0, factor, steps) == 0 <==> (steps as int) % factor == 0,
    decreases steps,
{
    if steps > 0 {
        let prev = (steps - 1) as int;
        lemma_hold_counter_cycles(factor, (steps - 1) as nat);
        let m: int = if factor < 0 { -factor } else { factor };
        let r = prev % factor;
        lemma_mod_by_magnitude(prev, factor);
        lemma_mod_by_magnitude(prev + 1, factor);
        lemma_mod_by_magnitude(r + 1, factor);
        assert((1 + (prev % m)) % m == (1 + prev) % m) by {
            vstd::arithmetic::div_mod::lemma_add_mod_noop_right(1, prev, m);
        }
        assert(hold_counter_after(0, factor, steps) == truncated_rem(r + 1, factor));
        assert(truncated_rem(r + 1, factor) == (r + 1) % factor);
    }
}

/// A Euclidean remainder depends on the divisor's magnitude only.
proof fn lemma_mod_by_magnitude(x: int, d: int)
    requires
        d != 0,
    ensures
        x % d == x % (if d < 0 { -d } else { d }),
{
    if d < 0 {
        vstd::arithmetic::div_mod::lemma_fundamental_div_mod(x, d);
        vstd::arithmetic::div_mod::lemma_fundamental_div_mod(x, -d);
        let q1 = x / d;
        let q2 = x / (-d);
        assert(x == d * q1 + x % d);
        assert(x == (-d) * q2 + x % (-d));
        assert(0 <= x % d < -d);
        assert(0 <= x % (-d) < -d);
        assert((-d) * (-q1) == d * q1) by (nonlinear_arith);
        vstd::arithmetic::div_mod::lemma_fundamental_div_mod_converse(x, -d, -q1, x % d);
    }
}

/// The bin of the spectral peak in `lo..hi`, read from ordering keys: `keys[j]` orders the
/// bins as their values do, and key 0 stands for every value that is not above zero.
/// The peak is the first bin holding the largest key; when no key in the range is above
/// zero it is `lo`.
pub open spec fn is_peak_bin(keys: Seq<u32>, lo: int, hi: int, bin: int) -> bool {
    if exists|j: int| lo <= j < hi && keys[j] > 0 {
        &&& lo <= bin < hi
        &&& keys[bin] > 0
        &&& forall|j: int| lo <= j < hi ==> keys[j] <= keys[bin]
        &&& forall|j: int| lo <= j < bin ==> keys[j] < keys[bin]
    } else {
        bin == lo
    }
}

/// Finds the bin with the largest harmonic-product value in `lo..hi` (the search step of
/// the fundamental-frequency detector). A bin replaces the current best only when its
/// value is strictly larger, so ties go to the lowest bin; the search starts at value
/// zero with `lo` as the best bin.
pub fn find_peak_bin(keys: &[u32], lo: usize, hi: usize) -> (bin: usize)
    requires
        lo <= hi <= keys@.len(),
    ensures
        is_peak_bin(keys@, lo as int, hi as int, bin as int),
        lo <= bin,
        bin < hi || bin == lo,
        (exists|j: int| lo <= j < hi && keys@[j] > 0) ==> {
            &&& bin < hi
            &&& keys@[bin as int] > 0
            &&& forall|j: int| lo <= j < hi ==> keys@[j] <= keys@[bin as int]
            &&& forall|j: int| lo <= j < bin ==> keys@[j] < keys@[bin as int]
        },
        (forall|j: int| lo <= j < hi ==> keys@[j] == 0) ==> bin == lo,
{
    let mut max_key: u32 = 0;
    let mut best_bin: usize = lo;
    let mut j: usize = lo;
    while j < hi
        invariant
            lo <= j <= hi <= keys@.len(),
            forall|k: int| lo <= k < j ==> keys@[k] <= max_key,
            max_key == 0 ==> best_bin == lo,
            max_key > 0 ==> {
                &&& lo <= best_bin < j
                &&& keys@[best_bin as int] == max_key
                &&& forall|k: int| lo <= k < best_bin ==> keys@[k] < max_key
            },
        decreases hi - j,
    {
        if keys[j] > max_key {
            max_key = keys[j];
            best_bin = j;
        }
        j = j + 1;
    }
    proof {
        if exists|k: int| lo <= k < hi && keys@[k] > 0 {
            let k = choose|k: int| lo <= k < hi && keys@[k] > 0;
            assert(keys@[k] <= max_key);
        }
    }
    best_bin
}

/// The bin after sub-octave disambiguation: half the detected bin when that bin is not
/// below `min_bin` and carries energy above the noise floor; failing that, a third of it
/// under the same condition; otherwise the detected bin itself.
pub open spec fn spec_sub_octave_bin(best_bin: int, min_bin: int, above_noise_floor: Seq<bool>) -> int {
    if best_bin / 2 >= min_bin && above_noise_floor[best_bin / 2] {
        best_bin / 2
    } else if best_bin / 3 >= min_bin && above_noise_floor[best_bin / 3] {
        best_bin / 3
    } else {
        best_bin
    }
}

/// Sub-octave disambiguation of a detected fundamental bin. The harmonic product spectrum
/// often peaks at twice or three times the true fundamental; when the bin an octave
/// (or a twelfth) below carries clear spectral energy (`above_noise_floor[bin]`), the
/// fundamental is taken to be there. One correction step only: the result is the detected
/// bin, its half or its third, never lower.
pub fn correct_sub_octave(best_bin: usize, min_bin: usize, above_noise_floor: &[bool]) -> (bin: usize)
    requires
        best_bin < above_noise_floor@.len(),
    ensures
        bin == spec_sub_octave_bin(best_bin as int, min_bin as int, above_noise_floor@),
        bin == best_bin || bin == best_bin / 2 || bin == best_bin / 3,
        bin <= best_bin,
        bin != best_bin ==> bin >= min_bin && above_noise_floor@[bin as int],
        best_bin / 2 >= min_bin && above_noise_floor@[best_bin as int / 2] ==> bin == best_bin / 2,
        !(best_bin / 2 >= min_bin && above_noise_floor@[best_bin as int / 2]) && best_bin / 3 >= min_bin
            && above_noise_floor@[best_bin as int / 3] ==> bin == best_bin / 3,
        !(best_bin / 2 >= min_bin && above_noise_floor@[best_bin as int / 2]) && !(best_bin / 3 >= min_bin
            && above_noise_floor@[best_bin as int / 3]) ==> bin == best_bin,
{
    let half = best_bin / 2;
    if half >= min_bin && above_noise_floor[half] {
        return half;
    }
    let third = best_bin / 3;
    if third >= min_bin && above_noise_floor[third] {
        return third;
    }
    best_bin
}

/// Sub-octave disambiguation checks the octave below first: whenever half the detected
/// bin (rounded down, for odd and even bins alike) is not below `min_bin` and carries
/// energy, the fundamental is taken there. Only when that test fails is a third of the
/// bin considered, and the detected bin stays when both tests fail.
pub proof fn lemma_sub_octave_prefers_octave_below(best_bin: int, min_bin: int, above_noise_floor: Seq<bool>)
    requires
        0 <= best_bin < above_noise_floor.len(),
    ensures
        best_bin / 2 >= min_bin && above_noise_floor[best_bin / 2]
            ==> spec_sub_octave_bin(best_bin, min_bin, above_noise_floor) == best_bin / 2,
        !(best_bin / 2 >= min_bin && above_noise_floor[best_bin / 2]) && best_bin / 3 >= min_bin
            && above_noise_floor[best_bin / 3]
            ==> spec_sub_octave_bin(best_bin, min_bin, above_noise_floor) == best_bin / 3,
        !(best_bin / 2 >= min_bin && above_noise_floor[best_bin / 2]) && !(best_bin / 3 >= min_bin
            && above_noise_floor[best_bin / 3])
            ==> spec_sub_octave_bin(best_bin, min_bin, above_noise_floor) == best_bin,
        spec_sub_octave_bin(best_bin, min_bin, above_noise_floor) * 2 <= best_bin + 1
            || spec_sub_octave_bin(best_bin, min_bin, above_noise_floor) == best_bin,
{
}

/// Number of quantization levels of a `bit_depth`-bit bitcrusher: 2 to the power `bit_depth`.
pub fn quantization_levels(bit_depth: i8) -> (levels: u64)
    requires
        0 <= bit_depth < 64,
    ensures
        levels == vstd::arithmetic::power2::pow2(bit_depth as nat),
{
    let shift = bit_depth as u64;
    proof {
        vstd::bits::lemma_u64_pow2_no_overflow(shift as nat);
        vstd::bits::lemma_u64_shl_is_mul(1, shift);
    }
    1u64 << shift
}

/// Decimation factor of the YIN pitch detector.
pub const YIN_DECIMATION: usize = 8;

/// Capacity of the YIN detector's decimated buffer.
pub const YIN_BUFFER_LEN: usize = 128;

/// The analysis window of the YIN detector: the decimated frame length and the range of
/// lags `min_lag..=max_lag` that the search covers.
#[derive(Debug, Clone, Copy, PartialEq, Eq, Structural)]
pub struct YinWindow {
    pub frame_len: usize,
    pub min_lag: usize,
    pub max_lag: usize,
}

/// Length of the decimated frame for `input_len` input samples.
pub open spec fn spec_yin_frame_len(input_len: int) -> int {
    if input_len / (YIN_DECIMATION as int) <= YIN_BUFFER_LEN as int {
        input_len / (YIN_DECIMATION as int)
    } else {
        YIN_BUFFER_LEN as int
    }
}

/// Largest lag searched: the lag of the lowest vocal frequency, capped so that at least two
/// decimated samples remain in the difference window.
pub open spec fn spec_yin_max_lag(input_len: int, range_max_lag: int) -> int {
    let frame_len = spec_yin_frame_len(input_len);
    let cap = if frame_len >= 2 { frame_len - 2 } else { 0 };
    if range_max_lag <= cap { range_max_lag } else { cap }
}

/// Computes the YIN search window for a frame of `input_len` samples: `min_lag` and
/// `range_max_lag` are the lags of the highest and the lowest vocal frequency at the
/// decimated rate. Returns `None`, which the detector reports as no pitch, when the lag
/// range is empty.
pub fn yin_window(input_len: usize, min_lag: usize, range_max_lag: usize) -> (window: Option<YinWindow>)
    ensures
        window.is_none() <==> min_lag >= spec_yin_max_lag(input_len as int, range_max_lag as int),
        window matches Some(w) ==> {
            &&& w.frame_len == spec_yin_frame_len(input_len as int)
            &&& w.min_lag == min_lag
            &&& w.max_lag == spec_yin_max_lag(input_len as int, range_max_lag as int)
            &&& w.min_lag < w.max_lag
            &&& w.max_lag + 2 <= w.frame_len <= YIN_BUFFER_LEN
            &&& w.frame_len * YIN_DECIMATION <= input_len
            &&& w.frame_len == YIN_BUFFER_LEN || w.frame_len == input_len / YIN_DECIMATION
            &&& input_len / YIN_DECIMATION >= YIN_BUFFER_LEN ==> w.frame_len == YIN_BUFFER_LEN
            &&& w.max_lag <= range_max_lag
            &&& (w.max_lag == range_max_lag || w.max_lag + 2 == w.frame_len)
        },
        input_len / YIN_DECIMATION >= min_lag + 3 && min_lag + 3 <= YIN_BUFFER_LEN && range_max_lag > min_lag
            ==> window.is_some(),
{
    let decimated = input_len / YIN_DECIMATION;
    let frame_len = if decimated <= YIN_BUFFER_LEN { decimated } else { YIN_BUFFER_LEN };
    let cap = frame_len.saturating_sub(2);
    let max_lag = if range_max_lag <= cap { range_max_lag } else { cap };
    if min_lag >= max_lag {
        return None;
    }
    Some(YinWindow { frame_len, min_lag, max_lag })
}

/// Upper end `limit` of the bins `min_bin..limit` that a downsampling `factor` multiplies
/// into the harmonic product spectrum: the bins whose `factor`-th harmonic still lies
/// below `safe_max_bin`.
pub fn harmonic_downsample_limit(min_bin: usize, safe_max_bin: usize, factor: usize) -> (limit: usize)
    requires
        factor > 0,
        min_bin <= safe_max_bin / factor,
    ensures
        limit == safe_max_bin / factor,
        min_bin <= limit,
        forall|j: int| 0 <= j < limit ==> #[trigger] (j * factor) < safe_max_bin,
{
    let limit = safe_max_bin / factor;
    proof {
        assert forall|j: int| 0 <= j < limit implies #[trigger] (j * factor) < safe_max_bin by {
            vstd::arithmetic::div_mod::lemma_fundamental_div_mod(safe_max_bin as int, factor as int);
            assert(j * factor <= (limit - 1) * factor) by (nonlinear_arith)
                requires
                    0 <= j <= limit - 1,
                    factor > 0,
            ;
            assert((limit - 1) * factor == factor * limit - factor) by (nonlinear_arith);
        }
    }
    limit
}

} // verus!
