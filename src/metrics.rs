use vstd::prelude::*;

use crate::session::App;

verus! {

/// Number of space characters in `s`.
pub open spec fn space_count(s: Seq<char>) -> nat
    decreases s.len(),
{
    if s.len() == 0 {
        0
    } else {
        space_count(s.drop_last()) + if s.last() == ' ' { 1nat } else { 0nat }
    }
}

/// The rough word count of a text: its spaces plus one.
pub open spec fn word_count_of(s: Seq<char>) -> nat {
    space_count(s) + 1
}

/// Number of positions `i < typed.len()` where `sample` has a character equal
/// to `typed[i]`; positions past the end of `sample` never count.
pub open spec fn correct_count(typed: Seq<char>, sample: Seq<char>) -> nat
    decreases typed.len(),
{
    if typed.len() == 0 {
        0
    } else {
        let i = typed.len() - 1;
        correct_count(typed.drop_last(), sample) + if i < sample.len() && typed[i] == sample[i] {
            1nat
        } else {
            0nat
        }
    }
}

/// Accuracy as shown to the user, in tenths of a percent rounded half up:
/// 1000 for empty typed text, else `correct / typed.len() * 100` to one
/// decimal. The exact accuracy is `correct_count(typed, sample)` out of
/// `typed.len()`.
pub open spec fn rounded_accuracy(typed: Seq<char>, sample: Seq<char>) -> nat {
    if typed.len() == 0 {
        1000
    } else {
        ((2000 * correct_count(typed, sample) + typed.len()) / (2 * typed.len())) as nat
    }
}

/// Milliseconds from `start` to `now`, or zero if the clock went backwards.
pub open spec fn elapsed_of(start: u64, now: u64) -> nat {
    if now >= start {
        (now - start) as nat
    } else {
        0
    }
}

/// Words per minute, rounded half up, for `words` words typed in `ms`
/// milliseconds (`ms > 0`): `words / (ms / 60000)`.
pub open spec fn wpm_of(words: nat, ms: nat) -> nat
    recommends
        ms > 0,
{
    ((120000 * words + ms) / (2 * ms)) as nat
}

/// Milliseconds rounded half up to tenths of a second.
pub open spec fn tenths_of(ms: nat) -> nat {
    (ms + 50) / 100
}

/// Counts the spaces of `sample` and adds one.
pub fn word_count(sample: &Vec<char>) -> (r: u128)
    ensures
        r == word_count_of(sample@),
        r <= usize::MAX + 1,
{
    let mut spaces: usize = 0;
    let mut i: usize = 0;
    while i < sample.len()
        invariant
            i <= sample@.len(),
            spaces == space_count(sample@.subrange(0, i as int)),
            spaces <= i,
        decreases sample@.len() - i,
    {
        assert(sample@.subrange(0, i + 1).drop_last() =~= sample@.subrange(0, i as int));
        if sample[i] == ' ' {
            spaces = spaces + 1;
        }
        i = i + 1;
    }
    assert(sample@.subrange(0, i as int) =~= sample@);
    (spaces as u128) + 1
}

/// Number of typed characters that agree with the sample at their position.
/// The accuracy is this count out of `app.typed.len()` characters, or 100%
/// when nothing is typed.
pub fn correct_chars(app: &App) -> (r: usize)
    ensures
        r == correct_count(app@.typed, app@.sample),
        r <= app@.typed.len(),
{
    let n = app.typed.len();
    let mut correct: usize = 0;
    let mut i: usize = 0;
    while i < n
        invariant
            n == app.typed@.len(),
            i <= n,
            correct == correct_count(app.typed@.subrange(0, i as int), app.sample@),
            correct <= i,
        decreases n - i,
    {
        assert(app.typed@.subrange(0, i + 1).drop_last() =~= app.typed@.subrange(0, i as int));
        if i < app.sample.len() && app.typed[i] == app.sample[i] {
            correct = correct + 1;
        }
        i = i + 1;
    }
    assert(app.typed@.subrange(0, n as int) =~= app.typed@);
    correct
}

/// The session's accuracy as shown to the user, in tenths of a percent
/// rounded half up (1000 is 100.0%).
pub fn accuracy_tenths(app: &App) -> (r: u64)
    ensures
        r == rounded_accuracy(app@.typed, app@.sample),
{
    let n = app.typed.len();
    if n == 0 {
        return 1000;
    }
    let correct = correct_chars(app);
    let num: u128 = 2000 * (correct as u128) + (n as u128);
    let den: u128 = 2 * (n as u128);
    assert(num / den <= 1000) by (nonlinear_arith)
        requires
            num == 2000 * correct + n,
            den == 2 * n,
            correct <= n,
            n > 0,
    ;
    (num / den) as u64
}

/// Milliseconds elapsed from `start` to `now`, saturating at zero.
pub fn elapsed_ms(start: u64, now: u64) -> (r: u64)
    ensures
        r == elapsed_of(start, now),
{
    if now >= start {
        now - start
    } else {
        0
    }
}

/// Words per minute, rounded half up, for `words` words typed in `ms`
/// milliseconds; `None` when no time has passed.
pub fn words_per_minute(words: u128, ms: u64) -> (r: Option<u128>)
    requires
        words <= usize::MAX + 1,
    ensures
        ms == 0 <==> r.is_none(),
        ms > 0 ==> r == Some(wpm_of(words as nat, ms as nat) as u128),
{
    if ms == 0 {
        return None;
    }
    let num: u128 = 120000 * words + (ms as u128);
    let den: u128 = 2 * (ms as u128);
    Some(num / den)
}

/// Milliseconds rounded half up to tenths of a second.
pub fn tenths_of_second(ms: u64) -> (r: u64)
    ensures
        r == tenths_of(ms as nat),
{
    ms / 100 + if ms % 100 >= 50 { 1u64 } else { 0u64 }
}

/// Every prefix of the sample, typed exactly, has all its characters correct.
pub proof fn lemma_prefix_all_correct(typed: Seq<char>, sample: Seq<char>)
    requires
        typed.len() <= sample.len(),
        typed == sample.subrange(0, typed.len() as int),
    ensures
        correct_count(typed, sample) == typed.len(),
    decreases typed.len(),
{
    if typed.len() > 0 {
        let shorter = typed.drop_last();
        assert(shorter =~= sample.subrange(0, shorter.len() as int));
        lemma_prefix_all_correct(shorter, sample);
    }
}

/// No more characters are correct than were typed.
pub proof fn lemma_correct_count_bounded(typed: Seq<char>, sample: Seq<char>)
    ensures
        correct_count(typed, sample) <= typed.len(),
    decreases typed.len(),
{
    if typed.len() > 0 {
        lemma_correct_count_bounded(typed.drop_last(), sample);
    }
}

/// Accuracy is 100% exactly when the typed text is a prefix of the sample:
/// every typed character is correct if and only if each one has a sample
/// character at its position and equals it.
pub proof fn lemma_all_correct_iff_prefix(typed: Seq<char>, sample: Seq<char>)
    ensures
        correct_count(typed, sample) == typed.len() <==> (typed.len() <= sample.len()
            && forall|i: int| 0 <= i < typed.len() ==> typed[i] == sample[i]),
    decreases typed.len(),
{
    if typed.len() > 0 {
        let shorter = typed.drop_last();
        lemma_all_correct_iff_prefix(shorter, sample);
        lemma_correct_count_bounded(shorter, sample);
        let n = typed.len() - 1;
        if correct_count(typed, sample) == typed.len() {
            assert forall|i: int| 0 <= i < typed.len() implies typed[i] == sample[i] by {
                if i < n {
                    assert(shorter[i] == typed[i]);
                }
            }
        }
        if typed.len() <= sample.len() && forall|i: int|
            0 <= i < typed.len() ==> typed[i] == sample[i] {
            assert forall|i: int| 0 <= i < shorter.len() implies shorter[i] == sample[i] by {
                assert(typed[i] == sample[i]);
            }
            assert(typed[n] == sample[n]);
        }
    }
}

/// Typing any prefix of the sample, the empty one included, shows an
/// accuracy of exactly 100.0%.
pub proof fn lemma_prefix_accuracy(typed: Seq<char>, sample: Seq<char>)
    requires
        typed.len() <= sample.len(),
        typed == sample.subrange(0, typed.len() as int),
    ensures
        rounded_accuracy(typed, sample) == 1000,
{
    lemma_prefix_all_correct(typed, sample);
    if typed.len() > 0 {
        let n = typed.len();
        assert((2000 * n + n) / (2 * n) == 1000) by (nonlinear_arith)
            requires
                n > 0,
        ;
    }
}

/// Empty typed text has no correct character and an accuracy of exactly
/// 100.0%, whatever the sample.
pub proof fn lemma_empty_accuracy(sample: Seq<char>)
    ensures
        correct_count(Seq::<char>::empty(), sample) == 0,
        rounded_accuracy(Seq::<char>::empty(), sample) == 1000,
{
}

/// When no typed character agrees with the sample at its position, no
/// character counts as correct.
pub proof fn lemma_disjoint_none_correct(typed: Seq<char>, sample: Seq<char>)
    requires
        forall|i: int| 0 <= i < typed.len() && i < sample.len() ==> typed[i] != sample[i],
    ensures
        correct_count(typed, sample) == 0,
    decreases typed.len(),
{
    if typed.len() > 0 {
        lemma_disjoint_none_correct(typed.drop_last(), sample);
    }
}

/// Non-empty typed text that differs from the sample at every position shows
/// an accuracy of exactly 0.0%.
pub proof fn lemma_disjoint_accuracy(typed: Seq<char>, sample: Seq<char>)
    requires
        typed.len() > 0,
        forall|i: int| 0 <= i < typed.len() && i < sample.len() ==> typed[i] != sample[i],
    ensures
        rounded_accuracy(typed, sample) == 0,
{
    lemma_disjoint_none_correct(typed, sample);
    let n = typed.len();
    assert(n / (2 * n) == 0) by (nonlinear_arith)
        requires
            n > 0,
    ;
}


/// The longer the same words took, the lower (or equal) the words per minute.
pub proof fn lemma_wpm_non_increasing(words: nat, ms1: nat, ms2: nat)
    requires
        0 < ms1 <= ms2,
    ensures
        wpm_of(words, ms2) <= wpm_of(words, ms1),
{
    let a = 120000 * words;
    let q2 = (a + ms2) / (2 * ms2);
    assert(q2 * (2 * ms2) <= a + ms2) by (nonlinear_arith)
        requires
            q2 == (a + ms2) / (2 * ms2),
            ms2 > 0,
    ;
    assert(q2 * (2 * ms1) <= a + ms1) by (nonlinear_arith)
        requires
            q2 * (2 * ms2) <= a + ms2,
            0 < ms1 <= ms2,
            q2 >= 0,
    ;
    assert(q2 <= (a + ms1) / (2 * ms1)) by (nonlinear_arith)
        requires
            q2 * (2 * ms1) <= a + ms1,
            ms1 > 0,
            q2 >= 0,
    ;
}

} // verus!
