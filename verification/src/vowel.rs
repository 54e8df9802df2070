use vstd::prelude::*;
use crate::float_bits::{float_gt, gt, is_nan, magnitude, total_key, total_rank};

verus! {

/// The five vowel mouth shapes the source can show.
#[derive(Debug, Clone, Copy, PartialEq, Eq, Structural)]
pub enum Vowel {
    A,
    E,
    I,
    O,
    U,
}

/// Position of a vowel in the order A, E, I, O, U.
pub open spec fn vowel_index(v: Vowel) -> nat {
    match v {
        Vowel::A => 0,
        Vowel::E => 1,
        Vowel::I => 2,
        Vowel::O => 3,
        Vowel::U => 4,
    }
}

/// The vowel at a position of the order A, E, I, O, U.
pub open spec fn vowel_at(i: int) -> Vowel
    recommends
        0 <= i < 5,
{
    if i == 0 {
        Vowel::A
    } else if i == 1 {
        Vowel::E
    } else if i == 2 {
        Vowel::I
    } else if i == 3 {
        Vowel::O
    } else {
        Vowel::U
    }
}

/// The settings key under which the image of a vowel is stored.
pub open spec fn vowel_settings_key(v: Vowel) -> Seq<char> {
    match v {
        Vowel::A => "vowel_a_image"@,
        Vowel::E => "vowel_e_image"@,
        Vowel::I => "vowel_i_image"@,
        Vowel::O => "vowel_o_image"@,
        Vowel::U => "vowel_u_image"@,
    }
}

/// The label shown for a vowel in the settings dialog.
pub open spec fn vowel_label(v: Vowel) -> Seq<char> {
    match v {
        Vowel::A => "A"@,
        Vowel::E => "E"@,
        Vowel::I => "I"@,
        Vowel::O => "O"@,
        Vowel::U => "U"@,
    }
}

impl Vowel {
    /// Every vowel, in the order of their indices.
    pub const ALL: [Vowel; 5] = [Vowel::A, Vowel::E, Vowel::I, Vowel::O, Vowel::U];

    /// The position of the vowel in `Vowel::ALL`.
    pub fn index(self) -> (r: usize)
        ensures
            r == vowel_index(self),
            r < 5,
    {
        match self {
            Vowel::A => 0,
            Vowel::E => 1,
            Vowel::I => 2,
            Vowel::O => 3,
            Vowel::U => 4,
        }
    }

    /// The settings key of the vowel's image.
    pub fn settings_key(self) -> (r: &'static str)
        ensures
            r@ == vowel_settings_key(self),
    {
        match self {
            Vowel::A => "vowel_a_image",
            Vowel::E => "vowel_e_image",
            Vowel::I => "vowel_i_image",
            Vowel::O => "vowel_o_image",
            Vowel::U => "vowel_u_image",
        }
    }

    /// The vowel's label.
    pub fn label(self) -> (r: &'static str)
        ensures
            r@ == vowel_label(self),
    {
        match self {
            Vowel::A => "A",
            Vowel::E => "E",
            Vowel::I => "I",
            Vowel::O => "O",
            Vowel::U => "U",
        }
    }
}

/// The vowel whose formant target is nearest, given the distance to each
/// target as a single-precision pattern, in the order A, E, I, O, U: the
/// first of the smallest distances in the IEEE 754 total order.
pub fn nearest_vowel_by_distance(distances: [u32; 5]) -> (v: Vowel)
    ensures
        forall|j: int| 0 <= j < 5 ==> total_rank(distances[vowel_index(v) as int]) <= total_rank(#[trigger] distances[j]),
        forall|j: int| 0 <= j < vowel_index(v) ==> total_rank(#[trigger] distances[j]) > total_rank(distances[vowel_index(v) as int]),
{
    let mut best: usize = 0;
    let mut best_key = total_key(distances[0]);
    let mut i: usize = 1;
    while i < 5
        invariant
            1 <= i <= 5,
            best < i,
            best_key == total_rank(distances[best as int]),
            forall|j: int| 0 <= j < i ==> best_key <= total_rank(#[trigger] distances[j]),
            forall|j: int| 0 <= j < best ==> total_rank(#[trigger] distances[j]) > best_key,
        decreases 5 - i,
    {
        let key = total_key(distances[i]);
        if key < best_key {
            best = i;
            best_key = key;
        }
        i = i + 1;
    }
    let v = Vowel::ALL[best];
    assert(vowel_index(v) == best);
    v
}

/// The bin a scan from `start` up to `k` settles on: a later bin replaces
/// the best one so far only when its magnitude is greater, so the first of
/// equal magnitudes stays, and a NaN never replaces nor is replaced.
pub open spec fn scan_best(magnitudes: Seq<u32>, start: int, k: int) -> int
    decreases k - start,
{
    if k <= start {
        start
    } else {
        let b = scan_best(magnitudes, start, k - 1);
        if float_gt(magnitudes[k], magnitudes[b]) {
            k
        } else {
            b
        }
    }
}

/// The last bin a peak search looks at: `max_bin`, but no further than the
/// last magnitude.
pub open spec fn last_bin(len: nat, max_bin: usize) -> int {
    let last = if len == 0 {
        0
    } else {
        len - 1
    };
    if max_bin < last {
        max_bin as int
    } else {
        last
    }
}

/// The bin of the strongest magnitude from `start` to `max_bin`, both
/// included and cut to the magnitudes there are; `None` when that range
/// holds fewer than two bins. Magnitudes are single-precision patterns.
pub fn peak_bin(magnitudes: &[u32], start: usize, max_bin: usize) -> (bin: Option<usize>)
    ensures
        ({
            let end = last_bin(magnitudes@.len(), max_bin);
            if start >= end {
                bin is None
            } else {
                bin == Some(scan_best(magnitudes@, start as int, end) as usize)
            }
        }),
{
    let len = magnitudes.len();
    let last = if len == 0 {
        0
    } else {
        len - 1
    };
    let end = if max_bin < last {
        max_bin
    } else {
        last
    };
    if start >= end {
        return None;
    }
    let mut best_bin = start;
    let mut best_mag = magnitudes[start];
    let mut i = start + 1;
    while i <= end
        invariant
            start < i <= end + 1,
            end < len,
            len == magnitudes@.len(),
            best_bin == scan_best(magnitudes@, start as int, i - 1),
            best_mag == magnitudes@[best_bin as int],
            start <= best_bin < i,
        decreases end + 1 - i,
    {
        let mag = magnitudes[i];
        if gt(mag, best_mag) {
            best_mag = mag;
            best_bin = i;
        }
        i = i + 1;
    }
    Some(best_bin)
}

/// Where no magnitude in the range is a NaN, the scan settles on the
/// first bin of the greatest magnitude: none is greater than it, and it
/// is greater than every bin before it.
pub proof fn lemma_scan_finds_first_peak(magnitudes: Seq<u32>, start: int, k: int)
    requires
        0 <= start <= k < magnitudes.len(),
        forall|j: int| start <= j <= k ==> !is_nan(#[trigger] magnitudes[j]),
    ensures
        start <= scan_best(magnitudes, start, k) <= k,
        forall|j: int|
            start <= j <= k ==> !float_gt(#[trigger] magnitudes[j], magnitudes[scan_best(magnitudes, start, k)]),
        forall|j: int|
            start <= j < scan_best(magnitudes, start, k) ==> float_gt(
                magnitudes[scan_best(magnitudes, start, k)],
                #[trigger] magnitudes[j],
            ),
    decreases k - start,
{
    if k > start {
        lemma_scan_finds_first_peak(magnitudes, start, k - 1);
        let b = scan_best(magnitudes, start, k - 1);
        if float_gt(magnitudes[k], magnitudes[b]) {
            assert forall|j: int| start <= j < k implies float_gt(magnitudes[k], #[trigger] magnitudes[j]) by {
                assert(!float_gt(magnitudes[j], magnitudes[b]));
                assert(magnitude(magnitudes[k]) == 0 ==> magnitudes[k] == 0 || total_rank(magnitudes[k]) == -1);
            }
        }
    }
}

/// `Vowel::ALL` lists each vowel at its index.
pub proof fn lemma_all_at_index(v: Vowel)
    ensures
        Vowel::ALL@[vowel_index(v) as int] == v,
        vowel_at(vowel_index(v) as int) == v,
{
}

/// Different vowels have different indices.
pub proof fn lemma_index_injective(v: Vowel, w: Vowel)
    requires
        v != w,
    ensures
        vowel_index(v) != vowel_index(w),
{
}

/// Different vowels store their images under different settings keys.
pub proof fn lemma_settings_keys_distinct(v: Vowel, w: Vowel)
    requires
        v != w,
    ensures
        vowel_settings_key(v) != vowel_settings_key(w),
{
    reveal_strlit("vowel_a_image");
    reveal_strlit("vowel_e_image");
    reveal_strlit("vowel_i_image");
    reveal_strlit("vowel_o_image");
    reveal_strlit("vowel_u_image");
    assert(vowel_settings_key(v)[6] != vowel_settings_key(w)[6]);
}

/// The peak search looks at bins up to `max_bin` itself, but never beyond
/// the last magnitude.
pub proof fn lemma_last_bin_is_min(len: nat, max_bin: usize)
    requires
        len > 0,
    ensures
        last_bin(len, max_bin) == if max_bin < len - 1 { max_bin as int } else { len - 1 },
        max_bin < len ==> last_bin(len, max_bin) == max_bin,
{
}

/// The scan settles on one of the bins it looked at.
pub proof fn lemma_scan_in_range(magnitudes: Seq<u32>, start: int, k: int)
    requires
        start <= k,
    ensures
        start <= scan_best(magnitudes, start, k) <= k,
    decreases k - start,
{
    if k > start {
        lemma_scan_in_range(magnitudes, start, k - 1);
    }
}

/// A bin whose magnitude is greater than that of every bin before it in
/// the range is the one the scan settles on when the range ends there.
pub proof fn lemma_scan_takes_greater_last(magnitudes: Seq<u32>, start: int, k: int)
    requires
        start < k,
        forall|j: int| start <= j < k ==> float_gt(magnitudes[k], #[trigger] magnitudes[j]),
    ensures
        scan_best(magnitudes, start, k) == k,
{
    lemma_scan_in_range(magnitudes, start, k - 1);
    let b = scan_best(magnitudes, start, k - 1);
    assert(float_gt(magnitudes[k], magnitudes[b]));
}

/// When the magnitude at `max_bin` is greater than every other in the range
/// from `start`, and `max_bin` lies within the spectrum, the peak search
/// finds `max_bin`.
pub proof fn lemma_peak_at_range_end(magnitudes: Seq<u32>, start: usize, max_bin: usize)
    requires
        start < max_bin < magnitudes.len(),
        forall|j: int| start <= j < max_bin ==> float_gt(magnitudes[max_bin as int], #[trigger] magnitudes[j]),
    ensures
        last_bin(magnitudes.len(), max_bin) == max_bin,
        scan_best(magnitudes, start as int, last_bin(magnitudes.len(), max_bin)) == max_bin,
{
    lemma_scan_takes_greater_last(magnitudes, start as int, max_bin as int);
}

} // verus!
