use speedread::display::{find_orp, split_word};
use speedread::event::{Event, Key};
use speedread::reader::{Action, App, SpeedChange, StartError};
use speedread::timing::{dwell, last_char, round_ratio};

fn words(text: &str) -> Vec<String> {
    text.split_whitespace().map(|w| w.to_string()).collect()
}

fn app(text: &str, wpm: u64, resume: usize) -> App {
    App::new(wpm, words(text), resume).unwrap()
}

#[test]
fn dwell_plain_word_is_base() {
    assert_eq!(dwell(300, "word", false), 200);
    assert_eq!(dwell(7, "word", false), 8571);
    assert_eq!(dwell(1, "word", false), 60000);
}

#[test]
fn dwell_sentence_end_doubles() {
    assert_eq!(dwell(600, "jumps.", false), 200);
    assert_eq!(dwell(300, "word!", false), 400);
    assert_eq!(dwell(300, "word?", false), 400);
    // 60000 / 7 * 2 = 17142.86
    assert_eq!(dwell(7, "word.", false), 17143);
}

#[test]
fn dwell_clause_end_half_again() {
    assert_eq!(dwell(300, "word,", false), 300);
    assert_eq!(dwell(300, "word:", false), 300);
    assert_eq!(dwell(300, "word;", false), 300);
    // 60000 / 7 * 1.5 = 12857.14
    assert_eq!(dwell(7, "word,", false), 12857);
}

#[test]
fn dwell_initial_word_five_times() {
    assert_eq!(dwell(300, "The", true), 1000);
    assert_eq!(dwell(300, "word.", true), 2000);
    assert_eq!(dwell(300, "word,", true), 1500);
}

#[test]
fn dwell_rounds_half_up() {
    // 60000 / 800 = 75; 60000 / 160000 = 0.375; 60000 / 80000 = 0.75
    assert_eq!(dwell(800, "a", false), 75);
    assert_eq!(dwell(160000, "a", false), 0);
    assert_eq!(dwell(80000, "a", false), 1);
    // 60000 / 120000 = 0.5 rounds up
    assert_eq!(dwell(120000, "a", false), 1);
    assert_eq!(dwell(u64::MAX, "a.", true), 0);
}

#[test]
fn round_ratio_values() {
    assert_eq!(round_ratio(5, 2), 3);
    assert_eq!(round_ratio(7, 3), 2);
    assert_eq!(round_ratio(8, 3), 3);
    assert_eq!(round_ratio(0, 9), 0);
    assert_eq!(round_ratio(u64::MAX, 1), u64::MAX);
}

#[test]
fn last_char_of_words() {
    assert_eq!(last_char(""), None);
    assert_eq!(last_char("a"), Some('a'));
    assert_eq!(last_char("héllo…"), Some('…'));
}

#[test]
fn orp_table() {
    let expected = [0, 1, 1, 1, 1, 2, 2, 2, 2, 3, 3, 3, 3];
    for len in 1..14 {
        assert_eq!(find_orp(len), expected[len - 1] as usize, "len {}", len);
    }
    assert_eq!(find_orp(14), 4);
    assert_eq!(find_orp(100), 4);
}

#[test]
fn split_word_around_orp() {
    let d = split_word("quick");
    assert_eq!(d.head, vec!['q']);
    assert_eq!(d.focus, 'u');
    assert_eq!(d.tail, vec!['i', 'c', 'k']);
    assert_eq!(d.padding, 3);

    let d = split_word("a");
    assert!(d.head.is_empty());
    assert_eq!(d.focus, 'a');
    assert!(d.tail.is_empty());
    assert_eq!(d.padding, 1);

    let d = split_word("incomprehensibilities");
    assert_eq!(d.head, vec!['i', 'n', 'c', 'o']);
    assert_eq!(d.focus, 'm');
    assert_eq!(d.padding, 21 - 8);
}

#[test]
fn new_rejects_bad_starts() {
    assert_eq!(App::new(300, vec![], 0).unwrap_err(), StartError::EmptyText);
    assert_eq!(
        App::new(300, vec!["a".to_string(), String::new()], 0).unwrap_err(),
        StartError::EmptyWord
    );
    assert_eq!(App::new(300, words("a b"), 2).unwrap_err(), StartError::ResumeOutOfRange);
    assert_eq!(App::new(0, words("a b"), 1).unwrap_err(), StartError::ZeroSpeed);
    let a = app("a b", 300, 1);
    assert_eq!(a.word_idx(), 1);
    assert_eq!(a.wpm(), 300);
    assert!(!a.paused());
}

#[test]
fn advance_and_retreat_clamp() {
    let mut a = app("one two three", 300, 2);
    a.advance_a_word();
    assert_eq!(a.word_idx(), 2);
    assert_eq!(a.current_word(), "three");
    let mut a = app("one two three", 300, 0);
    a.retreat_a_word();
    assert_eq!(a.word_idx(), 0);
    a.advance_a_word();
    assert_eq!(a.word_idx(), 1);
    a.retreat_a_word();
    assert_eq!(a.word_idx(), 0);
    let mut single = app("only", 300, 0);
    single.advance_a_word();
    single.retreat_a_word();
    assert_eq!(single.word_idx(), 0);
}

#[test]
fn context_words_at_edges() {
    let a = app("a b c d e f", 300, 0);
    assert!(a.preceding_n_words(3).is_empty());
    assert_eq!(a.succeeding_n_words(3), words("b c d"));
    let a = app("a b c d e f", 300, 5);
    assert!(a.succeeding_n_words(3).is_empty());
    assert_eq!(a.preceding_n_words(3), words("c d e"));
    let a = app("a b c d e f", 300, 1);
    assert_eq!(a.preceding_n_words(3), words("a"));
    let a = app("a b c d e f", 300, 4);
    assert_eq!(a.succeeding_n_words(3), words("f"));
    assert_eq!(a.succeeding_n_words(0), Vec::<String>::new());
    assert_eq!(a.succeeding_n_words(usize::MAX), words("f"));
    assert_eq!(a.preceding_n_words(usize::MAX), words("a b c d"));
}

#[test]
fn speed_changes() {
    let mut a = app("a", 300, 0);
    a.speed_change(SpeedChange::Faster);
    assert_eq!(a.wpm(), 330);
    a.speed_change(SpeedChange::Slower);
    assert_eq!(a.wpm(), 297);
    let mut a = app("a", 1, 0);
    a.speed_change(SpeedChange::Slower);
    assert_eq!(a.wpm(), 1);
    let mut a = app("a", u64::MAX, 0);
    a.speed_change(SpeedChange::Faster);
    assert_eq!(a.wpm(), u64::MAX);
    let mut a = app("a", 1000, 0);
    a.speed_change(SpeedChange::Faster);
    a.speed_change(SpeedChange::Slower);
    assert_eq!(a.wpm(), 990);
}

#[test]
fn faster_then_slower_within_one() {
    for w in 1..=28u64 {
        let mut a = app("a", w, 0);
        a.speed_change(SpeedChange::Faster);
        a.speed_change(SpeedChange::Slower);
        assert!(a.wpm() <= w && w - a.wpm() <= 1, "wpm {}", w);
    }
}

#[test]
fn standard_tick() {
    assert_eq!(app("a", 300, 0).standard_tick_millis(), 200);
    assert_eq!(app("a", 7, 0).standard_tick_millis(), 8571);
    // 60000 / 9 = 6666.67 is rounded down here, unlike a dwell
    assert_eq!(app("a", 9, 0).standard_tick_millis(), 6666);
    assert_eq!(dwell(9, "a", false), 6667);
}

#[test]
fn toggle_twice_restores_running() {
    let mut a = app("The quick fox", 300, 1);
    assert_eq!(a.send_current_duration(true), Some(1000));
    assert_eq!(a.toggle(), None);
    assert!(a.paused());
    assert_eq!(a.send_current_duration(false), None);
    assert_eq!(a.toggle(), Some(1000));
    assert!(!a.paused());
    assert_eq!(a.word_idx(), 1);
    assert_eq!(a.wpm(), 300);
}

#[test]
fn stale_tick_after_resume_is_ignored() {
    let mut a = app("one two three", 300, 0);
    assert_eq!(a.send_current_duration(true), Some(1000));
    assert_eq!(a.handle(Event::Input(Key::Char(' '))), Action::Nothing);
    assert_eq!(a.handle(Event::Input(Key::Char(' '))), Action::Arm(1000));
    // the tick of the first arm comes back first and is stale
    assert_eq!(a.handle(Event::Tick), Action::Nothing);
    assert_eq!(a.word_idx(), 0);
    // the tick of the resume arm advances
    assert_eq!(a.handle(Event::Tick), Action::Arm(200));
    assert_eq!(a.word_idx(), 1);
}

#[test]
fn tick_while_paused_does_not_advance() {
    let mut a = app("one two three", 300, 0);
    a.send_current_duration(true);
    a.handle(Event::Input(Key::Char(' ')));
    assert_eq!(a.handle(Event::Tick), Action::Nothing);
    assert_eq!(a.word_idx(), 0);
    // a tick nobody asked for changes nothing
    assert_eq!(a.on_tick(), None);
    assert_eq!(a.word_idx(), 0);
}

#[test]
fn arrows_only_step_while_paused() {
    let mut a = app("one two three", 300, 1);
    assert_eq!(a.handle(Event::Input(Key::Right)), Action::Nothing);
    assert_eq!(a.handle(Event::Input(Key::Left)), Action::Nothing);
    assert_eq!(a.word_idx(), 1);
    a.handle(Event::Input(Key::Char(' ')));
    a.handle(Event::Input(Key::Left));
    assert_eq!(a.word_idx(), 0);
    a.handle(Event::Input(Key::Right));
    a.handle(Event::Input(Key::Right));
    assert_eq!(a.word_idx(), 2);
    assert_eq!(a.handle(Event::Input(Key::Other)), Action::Nothing);
    assert_eq!(a.handle(Event::Input(Key::Char('x'))), Action::Nothing);
}

#[test]
fn brackets_change_speed() {
    let mut a = app("one two", 300, 0);
    assert_eq!(a.handle(Event::Input(Key::Char(']'))), Action::Nothing);
    assert_eq!(a.wpm(), 330);
    assert_eq!(a.handle(Event::Input(Key::Char('['))), Action::Nothing);
    assert_eq!(a.wpm(), 297);
}

#[test]
fn reading_session_scenario() {
    let mut a = app("The quick fox jumps.", 300, 0);
    assert_eq!(a.current_word(), "The");
    assert_eq!(a.send_current_duration(true), Some(1000));
    assert_eq!(a.handle(Event::Tick), Action::Arm(200));
    assert_eq!(a.word_idx(), 1);
    assert_eq!(a.current_word(), "quick");
    assert_eq!(a.handle(Event::Input(Key::Char(' '))), Action::Nothing);
    assert!(a.paused());
    assert_eq!(a.handle(Event::Tick), Action::Nothing);
    assert_eq!(a.word_idx(), 1);
    assert_eq!(a.handle(Event::Input(Key::Right)), Action::Nothing);
    assert_eq!(a.word_idx(), 2);
    assert_eq!(a.current_word(), "fox");
    assert_eq!(a.handle(Event::Input(Key::Char('q'))), Action::Quit);
    assert_eq!((a.word_idx(), a.wpm()), (2, 300));
}

#[test]
fn period_doubles_at_600_wpm() {
    let mut a = app("The quick fox jumps.", 600, 2);
    assert_eq!(a.send_current_duration(false), Some(100));
    assert_eq!(a.handle(Event::Tick), Action::Arm(200));
    assert_eq!(a.current_word(), "jumps.");
}

#[test]
fn current_display_of_app() {
    let a = app("The quick fox", 300, 1);
    let d = a.current_display();
    assert_eq!(d.focus, 'u');
    assert_eq!(d.head, vec!['q']);
}
