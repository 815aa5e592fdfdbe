use vstd::prelude::*;

use crate::metrics::{correct_count, lemma_prefix_accuracy, lemma_prefix_all_correct, rounded_accuracy};

verus! {

/// The sentence that every session asks the user to type.
pub const SAMPLE: &'static str = "The quick brown fox jumps over the lazy dog.";

/// A key press, as far as the session cares about it.
#[derive(Clone, Copy, Debug, PartialEq, Eq, Structural)]
pub enum Key {
    /// Request to leave the program.
    Esc,
    /// Delete the last typed character.
    Backspace,
    /// A printable character.
    Char(char),
    /// Any other key; it has no effect.
    Other,
}

/// What the run loop does after drawing a frame.
#[derive(Clone, Copy, Debug, PartialEq, Eq, Structural)]
pub enum LoopStep {
    /// Wait for the next key event and hand it to the session.
    Poll,
    /// Leave the loop and restore the terminal.
    Terminate,
}

/// The state of one typing session.
///
/// Timestamps are milliseconds on a monotonic clock chosen by the caller.
pub struct App {
    pub sample: Vec<char>,
    pub typed: Vec<char>,
    pub start_time: Option<u64>,
    pub finished: bool,
    pub quit: bool,
}

/// Mathematical model of a session.
pub struct AppView {
    pub sample: Seq<char>,
    pub typed: Seq<char>,
    pub start_time: Option<u64>,
    pub finished: bool,
    pub quit: bool,
}

impl View for App {
    type V = AppView;

    open spec fn view(&self) -> AppView {
        AppView {
            sample: self.sample@,
            typed: self.typed@,
            start_time: self.start_time,
            finished: self.finished,
            quit: self.quit,
        }
    }
}

impl AppView {
    /// The clock has started once anything was typed, and a finished
    /// session has always started its clock.
    pub open spec fn wf(self) -> bool {
        &&& self.typed.len() > 0 ==> self.start_time.is_some()
        &&& self.finished ==> self.start_time.is_some()
    }

    /// The completion rule: the typed text is at least as long as the sample
    /// and equal to it.
    pub open spec fn completes(self) -> bool {
        self.typed.len() >= self.sample.len() && self.typed == self.sample
    }
}

/// The session after `key` is handled at time `now`.
pub open spec fn step(v: AppView, key: Key, now: u64) -> AppView {
    match key {
        Key::Esc => AppView { quit: true, ..v },
        Key::Backspace => {
            if v.typed.len() > 0 {
                let typed = v.typed.drop_last();
                AppView { typed, finished: v.finished || AppView { typed, ..v }.completes(), ..v }
            } else {
                v
            }
        },
        Key::Char(c) => {
            if v.finished {
                v
            } else {
                let typed = v.typed.push(c);
                AppView {
                    typed,
                    start_time: if v.start_time.is_none() { Some(now) } else { v.start_time },
                    finished: AppView { typed, ..v }.completes(),
                    ..v
                }
            }
        },
        Key::Other => v,
    }
}

/// What the run loop does next in state `v`.
pub open spec fn loop_step(v: AppView) -> LoopStep {
    if v.quit {
        LoopStep::Terminate
    } else {
        LoopStep::Poll
    }
}

impl App {
    /// A fresh session on the fixed sample sentence: nothing typed, clock not
    /// started, neither finished nor quitting.
    pub fn new() -> (r: App)
        ensures
            r@.sample == SAMPLE@,
            r@.typed == Seq::<char>::empty(),
            r@.start_time.is_none(),
            !r@.finished,
            !r@.quit,
            r@.wf(),
    {
        let text: &str = SAMPLE;
        let n = text.unicode_len();
        let mut sample: Vec<char> = Vec::new();
        let mut i: usize = 0;
        while i < n
            invariant
                n == text@.len(),
                i <= n,
                sample@ == text@.subrange(0, i as int),
            decreases n - i,
        {
            sample.push(text.get_char(i));
            i = i + 1;
        }
        assert(sample@ == text@);
        App { sample, typed: Vec::new(), start_time: None, finished: false, quit: false }
    }

    /// What the run loop does after drawing this state.
    pub fn next_step(&self) -> (r: LoopStep)
        ensures
            r == loop_step(self@),
    {
        if self.quit {
            LoopStep::Terminate
        } else {
            LoopStep::Poll
        }
    }
}

/// Whether two character sequences are equal.
fn same_chars(a: &Vec<char>, b: &Vec<char>) -> (r: bool)
    ensures
        r == (a@ == b@),
{
    if a.len() != b.len() {
        return false;
    }
    let mut i: usize = 0;
    while i < a.len()
        invariant
            a@.len() == b@.len(),
            i <= a@.len(),
            forall|j: int| 0 <= j < i ==> a@[j] == b@[j],
        decreases a@.len() - i,
    {
        if a[i] != b[i] {
            return false;
        }
        i = i + 1;
    }
    assert(a@ =~= b@);
    true
}

/// Marks the session finished when the typed text equals the sample.
pub fn try_finish(app: &mut App)
    ensures
        final(app)@ == (AppView {
            finished: old(app)@.finished || old(app)@.completes(),
            ..old(app)@
        }),
{
    if app.typed.len() >= app.sample.len() && same_chars(&app.typed, &app.sample) {
        app.finished = true;
    }
}

/// Applies one key press at time `now` to the session.
pub fn handle_key(key: Key, app: &mut App, now: u64)
    ensures
        final(app)@ == step(old(app)@, key, now),
{
    match key {
        Key::Esc => {
            app.quit = true;
        },
        Key::Backspace => {
            if app.typed.len() > 0 {
                app.typed.pop();
                try_finish(app);
            }
        },
        Key::Char(c) => {
            if !app.finished {
                if app.start_time.is_none() {
                    app.start_time = Some(now);
                }
                app.typed.push(c);
                try_finish(app);
            }
        },
        Key::Other => {},
    }
}

/// Handling a key keeps a session well formed.
pub proof fn lemma_step_preserves_wf(v: AppView, key: Key, now: u64)
    requires
        v.wf(),
    ensures
        step(v, key, now).wf(),
{
}

/// Once finished, a session stays finished, whatever key comes.
pub proof fn lemma_finished_is_monotonic(v: AppView, key: Key, now: u64)
    requires
        v.finished,
    ensures
        step(v, key, now).finished,
{
}

/// A printable character typed into an unfinished session finishes it
/// exactly when the typed text then equals the sample.
pub proof fn lemma_char_finishes_iff_equal(v: AppView, c: char, now: u64)
    requires
        !v.finished,
    ensures
        step(v, Key::Char(c), now).finished <==> step(v, Key::Char(c), now).typed == v.sample,
{
}

/// Backspace that removes a character from an unfinished session finishes it
/// exactly when the typed text then equals the sample.
pub proof fn lemma_backspace_finishes_iff_equal(v: AppView, now: u64)
    requires
        !v.finished,
        v.typed.len() > 0,
    ensures
        step(v, Key::Backspace, now).finished <==> step(v, Key::Backspace, now).typed
            == v.sample,
{
}

/// A session goes from unfinished to finished only by a printable character
/// or a backspace, and only with the typed text then equal to the sample.
pub proof fn lemma_finishing_needs_equal(v: AppView, key: Key, now: u64)
    requires
        !v.finished,
        step(v, key, now).finished,
    ensures
        step(v, key, now).typed == v.sample,
        key is Char || key is Backspace,
{
}

/// The clock starts at the first printable character of an unfinished
/// session, at the time of that key; a clock that has started never changes.
pub proof fn lemma_timer(v: AppView, key: Key, now: u64)
    ensures
        v.start_time.is_some() ==> step(v, key, now).start_time == v.start_time,
        v.start_time.is_none() && key is Char && !v.finished ==> step(v, key, now).start_time
            == Some(now),
        v.start_time.is_none() && !(key is Char) ==> step(v, key, now).start_time.is_none(),
{
}

/// Backspace with nothing typed changes nothing.
pub proof fn lemma_backspace_on_empty(v: AppView, now: u64)
    requires
        v.typed.len() == 0,
    ensures
        step(v, Key::Backspace, now) == v,
{
}

/// Esc, in any state, makes the run loop terminate on its next iteration.
pub proof fn lemma_esc_terminates(v: AppView, now: u64)
    ensures
        step(v, Key::Esc, now).quit,
        loop_step(step(v, Key::Esc, now)) == LoopStep::Terminate,
{
}

/// After finishing, printable characters change nothing.
pub proof fn lemma_locked_after_finish(v: AppView, c: char, now: u64)
    requires
        v.finished,
    ensures
        step(v, Key::Char(c), now) == v,
{
}

/// The session after each character of `text` is typed in order at time `now`.
pub open spec fn type_text(v: AppView, text: Seq<char>, now: u64) -> AppView
    decreases text.len(),
{
    if text.len() == 0 {
        v
    } else {
        step(type_text(v, text.drop_last(), now), Key::Char(text.last()), now)
    }
}

/// Typing a prefix of the sample into a fresh session leaves exactly that
/// prefix typed, finished only when the prefix is the whole sample.
pub proof fn lemma_type_prefix(v: AppView, text: Seq<char>, now: u64)
    requires
        v.typed.len() == 0,
        !v.finished,
        v.sample.len() > 0,
        text.len() <= v.sample.len(),
        text == v.sample.subrange(0, text.len() as int),
    ensures
        type_text(v, text, now).typed == text,
        type_text(v, text, now).sample == v.sample,
        type_text(v, text, now).finished <==> text.len() == v.sample.len(),
        text.len() > 0 ==> type_text(v, text, now).start_time.is_some(),
    decreases text.len(),
{
    if text.len() > 0 {
        let shorter = text.drop_last();
        assert(shorter =~= v.sample.subrange(0, shorter.len() as int));
        lemma_type_prefix(v, shorter, now);
        assert(shorter.push(text.last()) =~= text);
        if text.len() == v.sample.len() {
            assert(text =~= v.sample);
        } else {
            assert(text.len() != v.sample.len());
        }
    }
}

/// Typing the whole sample into a fresh session finishes it with every
/// character correct (100.0% accuracy) and the clock started; printable
/// characters typed after that change nothing.
pub proof fn lemma_type_whole_sample(v: AppView, now: u64, c: char, later: u64)
    requires
        v.typed.len() == 0,
        !v.finished,
        v.sample.len() > 0,
    ensures
        type_text(v, v.sample, now).finished,
        type_text(v, v.sample, now).typed == v.sample,
        type_text(v, v.sample, now).start_time.is_some(),
        correct_count(type_text(v, v.sample, now).typed, v.sample) == v.sample.len(),
        rounded_accuracy(type_text(v, v.sample, now).typed, v.sample) == 1000,
        step(type_text(v, v.sample, now), Key::Char(c), later) == type_text(v, v.sample, now),
{
    assert(v.sample =~= v.sample.subrange(0, v.sample.len() as int));
    lemma_type_prefix(v, v.sample, now);
    lemma_prefix_all_correct(v.sample, v.sample);
    lemma_prefix_accuracy(v.sample, v.sample);
}

} // verus!
