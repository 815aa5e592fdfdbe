use typing_speed::metrics::{accuracy_tenths, correct_chars, elapsed_ms, tenths_of_second, word_count, words_per_minute};
use typing_speed::session::{handle_key, try_finish, App, Key, LoopStep, SAMPLE};
use typing_speed::view::{char_marks, stats_line, CharMark, StatsLine};

fn chars(s: &str) -> Vec<char> {
    s.chars().collect()
}

fn app_with(sample: &str) -> App {
    let mut app = App::new();
    app.sample = chars(sample);
    app
}

fn type_str(app: &mut App, s: &str, now: u64) {
    for c in s.chars() {
        handle_key(Key::Char(c), app, now);
    }
}

#[test]
fn new_session_is_fresh() {
    let app = App::new();
    assert_eq!(app.sample, chars("The quick brown fox jumps over the lazy dog."));
    assert_eq!(app.sample, chars(SAMPLE));
    assert!(app.typed.is_empty());
    assert_eq!(app.start_time, None);
    assert!(!app.finished);
    assert!(!app.quit);
    assert_eq!(app.next_step(), LoopStep::Poll);
}

#[test]
fn prefixes_of_sample_are_fully_accurate() {
    let sample = App::new().sample;
    for n in 0..=sample.len() {
        let mut app = App::new();
        app.typed = sample[..n].to_vec();
        assert_eq!(correct_chars(&app), n);
        assert_eq!(accuracy_tenths(&app), 1000);
    }
}

#[test]
fn empty_typed_text_is_fully_accurate() {
    let app = app_with("");
    assert_eq!(correct_chars(&app), 0);
    assert_eq!(accuracy_tenths(&app), 1000);
    let app = App::new();
    assert_eq!(accuracy_tenths(&app), 1000);
}

#[test]
fn disjoint_typed_text_has_zero_accuracy() {
    let mut app = app_with("cat");
    app.typed = chars("dog");
    assert_eq!(correct_chars(&app), 0);
    assert_eq!(accuracy_tenths(&app), 0);
    app.typed = chars("xyzzy");
    assert_eq!(correct_chars(&app), 0);
    assert_eq!(accuracy_tenths(&app), 0);
}

#[test]
fn accuracy_rounds_to_tenths() {
    let mut app = app_with("abc");
    app.typed = chars("abx");
    // 2 of 3 correct: 66.666...% shows as 66.7%
    assert_eq!(accuracy_tenths(&app), 667);
    app.typed = chars("abcd");
    // positions past the sample count as wrong: 3 of 4
    assert_eq!(accuracy_tenths(&app), 750);
}

#[test]
fn correct_chars_is_exact() {
    let mut app = app_with("abc");
    app.typed = chars("abx");
    assert_eq!(correct_chars(&app), 2);
    app.typed = chars("abcd");
    assert_eq!(correct_chars(&app), 3);
    // one mistake in 2000 characters is still counted
    let mut app = app_with(&"a".repeat(2000));
    let mut typed = chars(&"a".repeat(1999));
    typed.push('b');
    app.typed = typed;
    assert_eq!(correct_chars(&app), 1999);
    assert_eq!(accuracy_tenths(&app), 1000);
}

#[test]
fn typing_cat_finishes() {
    let mut app = app_with("cat");
    type_str(&mut app, "ca", 10);
    assert!(!app.finished);
    handle_key(Key::Char('t'), &mut app, 20);
    assert!(app.finished);
    assert_eq!(app.typed, chars("cat"));
}

#[test]
fn overshoot_does_not_finish() {
    let mut app = app_with("cat");
    type_str(&mut app, "cax", 10);
    assert!(!app.finished);
    handle_key(Key::Char('s'), &mut app, 11);
    assert!(!app.finished);
    handle_key(Key::Backspace, &mut app, 12);
    assert_eq!(app.typed, chars("cax"));
    assert!(!app.finished);
}

#[test]
fn backspace_from_cats_then_retype() {
    let mut app = app_with("cat");
    type_str(&mut app, "cats", 10);
    // completion happens at "cat"; the trailing 's' is locked out
    assert!(app.finished);
    assert_eq!(app.typed, chars("cat"));

    let mut app = app_with("cat");
    type_str(&mut app, "caxs", 10);
    assert!(!app.finished);
    handle_key(Key::Backspace, &mut app, 11);
    handle_key(Key::Backspace, &mut app, 12);
    assert_eq!(app.typed, chars("ca"));
    handle_key(Key::Char('t'), &mut app, 13);
    assert!(app.finished);
}

#[test]
fn backspace_to_equal_text_finishes() {
    let mut app = app_with("cat");
    app.typed = chars("cats");
    app.start_time = Some(1);
    handle_key(Key::Backspace, &mut app, 2);
    assert_eq!(app.typed, chars("cat"));
    assert!(app.finished);
    assert_eq!(app.start_time, Some(1));
}

#[test]
fn backspace_on_empty_never_finishes_empty_sample() {
    let mut app = app_with("");
    handle_key(Key::Backspace, &mut app, 2);
    assert!(!app.finished);
    assert_eq!(app.start_time, None);
}

#[test]
fn try_finish_needs_equal_text() {
    let mut app = app_with("cat");
    app.typed = chars("cat");
    try_finish(&mut app);
    assert!(app.finished);
    let mut app = app_with("cat");
    app.typed = chars("cab");
    try_finish(&mut app);
    assert!(!app.finished);
}

#[test]
fn sample_has_nine_words() {
    let app = App::new();
    assert_eq!(word_count(&app.sample), 9);
    assert_eq!(word_count(&chars("")), 1);
    assert_eq!(word_count(&chars("a  b")), 3);
}

#[test]
fn wpm_of_sample_in_one_minute_is_nine() {
    let app = App::new();
    assert_eq!(words_per_minute(word_count(&app.sample), 60_000), Some(9));
}

#[test]
fn wpm_formula_values() {
    assert_eq!(words_per_minute(9, 30_000), Some(18));
    assert_eq!(words_per_minute(9, 0), None);
    // 10 words in 7 s: 85.71... rounds to 86
    assert_eq!(words_per_minute(10, 7_000), Some(86));
    // 1 word in 120 s: 0.5 rounds half up to 1
    assert_eq!(words_per_minute(1, 120_000), Some(1));
}

#[test]
fn elapsed_and_tenths() {
    assert_eq!(elapsed_ms(1_000, 3_456), 2_456);
    assert_eq!(elapsed_ms(5, 3), 0);
    assert_eq!(tenths_of_second(2_456), 25);
    assert_eq!(tenths_of_second(2_449), 24);
    assert_eq!(tenths_of_second(0), 0);
}

#[test]
fn timer_starts_on_first_char_only() {
    let mut app = App::new();
    handle_key(Key::Backspace, &mut app, 5);
    handle_key(Key::Other, &mut app, 6);
    assert_eq!(app.start_time, None);
    handle_key(Key::Char('T'), &mut app, 100);
    assert_eq!(app.start_time, Some(100));
    handle_key(Key::Char('h'), &mut app, 200);
    handle_key(Key::Backspace, &mut app, 300);
    handle_key(Key::Backspace, &mut app, 400);
    handle_key(Key::Char('x'), &mut app, 500);
    assert_eq!(app.start_time, Some(100));
}

#[test]
fn backspace_on_empty_is_noop() {
    let mut app = App::new();
    handle_key(Key::Backspace, &mut app, 42);
    assert!(app.typed.is_empty());
    assert_eq!(app.start_time, None);
    assert!(!app.finished);
    assert!(!app.quit);
}

#[test]
fn other_keys_do_nothing() {
    let mut app = App::new();
    type_str(&mut app, "Th", 1);
    handle_key(Key::Other, &mut app, 2);
    assert_eq!(app.typed, chars("Th"));
    assert_eq!(app.start_time, Some(1));
    assert!(!app.quit);
}

#[test]
fn esc_quits_in_every_phase() {
    let mut app = App::new();
    handle_key(Key::Esc, &mut app, 1);
    assert!(app.quit);
    assert_eq!(app.next_step(), LoopStep::Terminate);

    let mut app = App::new();
    type_str(&mut app, "The", 1);
    handle_key(Key::Esc, &mut app, 2);
    assert!(app.quit);
    assert_eq!(app.typed, chars("The"));
    assert_eq!(app.next_step(), LoopStep::Terminate);

    let mut app = app_with("ok");
    type_str(&mut app, "ok", 1);
    assert!(app.finished);
    handle_key(Key::Esc, &mut app, 2);
    assert!(app.quit);
    assert_eq!(app.next_step(), LoopStep::Terminate);
}

#[test]
fn round_trip_full_sample() {
    let mut app = App::new();
    type_str(&mut app, SAMPLE, 1_000);
    // the stats are read 60 s after the first key
    assert!(app.finished);
    assert_eq!(correct_chars(&app), app.sample.len());
    assert_eq!(accuracy_tenths(&app), 1000);
    assert_eq!(stats_line(&app, 61_000), StatsLine::Finished { wpm: Some(9), accuracy: 1000 });
    handle_key(Key::Char('!'), &mut app, 62_000);
    handle_key(Key::Char('x'), &mut app, 63_000);
    assert_eq!(app.typed, chars(SAMPLE));
    assert!(app.finished);
    assert_eq!(app.start_time, Some(1_000));
}

#[test]
fn backspace_after_finish_is_allowed() {
    let mut app = app_with("cat");
    type_str(&mut app, "cat", 1);
    handle_key(Key::Backspace, &mut app, 2);
    assert_eq!(app.typed, chars("ca"));
    assert!(app.finished);
}

#[test]
fn marks_compare_position_by_position() {
    let mut app = app_with("cat");
    assert_eq!(char_marks(&app), vec![CharMark::Untyped; 3]);
    app.typed = chars("cx");
    assert_eq!(char_marks(&app), vec![CharMark::Correct, CharMark::Wrong, CharMark::Untyped]);
    app.typed = chars("catss");
    assert_eq!(char_marks(&app), vec![CharMark::Correct; 3]);
}

#[test]
fn stats_messages_in_priority_order() {
    let mut app = App::new();
    assert_eq!(stats_line(&app, 500), StatsLine::Prompt);
    handle_key(Key::Char('T'), &mut app, 1_000);
    assert_eq!(stats_line(&app, 3_460), StatsLine::Typing { elapsed_tenths: 25 });
    let mut app = app_with("ab");
    type_str(&mut app, "ab", 1_000);
    assert_eq!(stats_line(&app, 1_000), StatsLine::Finished { wpm: None, accuracy: 1000 });
    // 1 word in 20 s
    assert_eq!(stats_line(&app, 21_000), StatsLine::Finished { wpm: Some(3), accuracy: 1000 });
}
