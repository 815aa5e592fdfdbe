use vstd::prelude::*;

use crate::metrics::{
    accuracy_tenths,
    elapsed_ms,
    rounded_accuracy,
    elapsed_of,
    tenths_of,
    tenths_of_second,
    word_count,
    word_count_of,
    words_per_minute,
    wpm_of,
};
use crate::session::App;

verus! {

/// How one character of the sample is shown.
#[derive(Clone, Copy, Debug, PartialEq, Eq, Structural)]
pub enum CharMark {
    /// Typed, and equal to the sample character.
    Correct,
    /// Typed, and different from the sample character.
    Wrong,
    /// Not typed yet.
    Untyped,
}

/// The message of the stats panel.
#[derive(Clone, Copy, Debug, PartialEq, Eq, Structural)]
pub enum StatsLine {
    /// The sample was typed: words per minute (`None` if no time passed) and
    /// accuracy in tenths of a percent, both rounded half up for display.
    Finished { wpm: Option<u128>, accuracy: u64 },
    /// Typing is under way: seconds since the first key, in tenths.
    Typing { elapsed_tenths: u64 },
    /// Nothing typed yet.
    Prompt,
}

/// The mark of sample position `i`.
pub open spec fn mark_at(typed: Seq<char>, sample: Seq<char>, i: int) -> CharMark {
    if i >= typed.len() {
        CharMark::Untyped
    } else if typed[i] == sample[i] {
        CharMark::Correct
    } else {
        CharMark::Wrong
    }
}

/// The stats message for a session whose view is `v`, at time `now`.
pub open spec fn stats_of(v: crate::session::AppView, now: u64) -> StatsLine {
    if v.finished {
        let ms = elapsed_of(v.start_time.unwrap(), now);
        StatsLine::Finished {
            wpm: if ms == 0 {
                None
            } else {
                Some(wpm_of(word_count_of(v.sample), ms) as u128)
            },
            accuracy: rounded_accuracy(v.typed, v.sample) as u64,
        }
    } else if v.start_time.is_some() {
        StatsLine::Typing { elapsed_tenths: tenths_of(elapsed_of(v.start_time.unwrap(), now)) as u64 }
    } else {
        StatsLine::Prompt
    }
}

/// One mark per character of the sample, comparing it with the typed
/// character at the same position.
pub fn char_marks(app: &App) -> (r: Vec<CharMark>)
    ensures
        r@.len() == app@.sample.len(),
        forall|i: int|
            0 <= i < r@.len() ==> #[trigger] r@[i] == mark_at(app@.typed, app@.sample, i),
{
    let mut marks: Vec<CharMark> = Vec::new();
    let mut i: usize = 0;
    while i < app.sample.len()
        invariant
            i <= app.sample@.len(),
            marks@.len() == i,
            forall|j: int|
                0 <= j < i ==> #[trigger] marks@[j] == mark_at(app.typed@, app.sample@, j),
        decreases app.sample@.len() - i,
    {
        let mark = if i >= app.typed.len() {
            CharMark::Untyped
        } else if app.typed[i] == app.sample[i] {
            CharMark::Correct
        } else {
            CharMark::Wrong
        };
        marks.push(mark);
        i = i + 1;
    }
    marks
}

/// The stats panel's message at time `now`.
pub fn stats_line(app: &App, now: u64) -> (r: StatsLine)
    requires
        app@.wf(),
    ensures
        r == stats_of(app@, now),
{
    if app.finished {
        let ms = elapsed_ms(app.start_time.unwrap(), now);
        let words = word_count(&app.sample);
        StatsLine::Finished { wpm: words_per_minute(words, ms), accuracy: accuracy_tenths(app) }
    } else {
        match app.start_time {
            Some(t) => StatsLine::Typing { elapsed_tenths: tenths_of_second(elapsed_ms(t, now)) },
            None => StatsLine::Prompt,
        }
    }
}

} // verus!
