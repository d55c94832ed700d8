use actuary::progress::Progress;
use actuary::scenarios::chapter1;
use actuary::scenarios::FeedbackKind;
use actuary::app::{App, Key};
use actuary::ui::{closing_line, feedback_prefix, fmt_money, fmt_money_signed, hint_lines, input_screen, menu_entry, visible_years, ChapterMark, EntryStyle, HintLineKind};

#[test]
fn money_is_grouped_by_thousands() {
    assert_eq!(fmt_money(false, 0), "$0");
    assert_eq!(fmt_money(false, 7), "$7");
    assert_eq!(fmt_money(false, 999), "$999");
    assert_eq!(fmt_money(false, 1000), "$1,000");
    assert_eq!(fmt_money(false, 100000), "$100,000");
    assert_eq!(fmt_money(false, 1234567), "$1,234,567");
    assert_eq!(fmt_money(true, 4732), "-$4,732");
    assert_eq!(fmt_money(false, u64::MAX), "$18,446,744,073,709,551,615");
}

#[test]
fn signed_money_always_has_a_sign() {
    assert_eq!(fmt_money_signed(false, 0), "+$0");
    assert_eq!(fmt_money_signed(false, 12345), "+$12,345");
    assert_eq!(fmt_money_signed(true, 12345), "-$12,345");
}

#[test]
fn menu_marks_follow_progress() {
    let mut p = Progress::default();
    assert_eq!(menu_entry(&p, 1, true), (ChapterMark::Open, EntryStyle::Selected));
    assert_eq!(menu_entry(&p, 1, false), (ChapterMark::Open, EntryStyle::Plain));
    assert_eq!(menu_entry(&p, 2, false), (ChapterMark::Locked, EntryStyle::Dimmed));
    p.mark_complete(1);
    assert_eq!(menu_entry(&p, 1, false), (ChapterMark::Completed, EntryStyle::Plain));
    assert_eq!(menu_entry(&p, 2, false), (ChapterMark::Open, EntryStyle::Plain));
    p.mark_complete(2);
    assert_eq!(menu_entry(&p, 3, false), (ChapterMark::Unplayable, EntryStyle::Dimmed));
    assert_eq!(menu_entry(&p, 4, false), (ChapterMark::Locked, EntryStyle::Dimmed));
}

#[test]
fn hint_window_shows_revealed_hints_split_at_newlines() {
    let hints: Vec<&'static str> = vec!["first line\nsecond", "", "a\n\nb\n"];
    let lines = hint_lines(&hints, 2);
    let expected: Vec<(HintLineKind, String)> = vec![
        (HintLineKind::Heading, "Hint 1:".to_string()),
        (HintLineKind::Text, "  first line".to_string()),
        (HintLineKind::Text, "  second".to_string()),
        (HintLineKind::Blank, String::new()),
        (HintLineKind::Heading, "Hint 2:".to_string()),
        (HintLineKind::Text, "  ".to_string()),
        (HintLineKind::Blank, String::new()),
        (HintLineKind::Footer, "Press h to reveal next hint (1/3 remaining)".to_string()),
    ];
    assert_eq!(lines, expected);
    let all = hint_lines(&hints, 7);
    let texts: Vec<&str> = all.iter().map(|(_, t)| t.as_str()).collect();
    assert_eq!(
        texts,
        vec!["Hint 1:", "  first line", "  second", "", "Hint 2:", "  ", "", "Hint 3:", "  a", "  ", "  b", "  ", "", "All hints revealed."]
    );
}

#[test]
fn hint_window_of_chapter_one() {
    let config = chapter1::config();
    let none = hint_lines(&config.hints, 0);
    assert_eq!(none, vec![(HintLineKind::Footer, "Press h to reveal next hint (4/4 remaining)".to_string())]);
    let one = hint_lines(&config.hints, 1);
    assert_eq!(one.len(), 5);
    assert_eq!(one[1].1, "  Think about the expected cost of each peril separately.");
    assert_eq!(one[2].1, "  What's the average loss from fire in any given year?");
    assert_eq!(one[4].1, "Press h to reveal next hint (3/4 remaining)");
}

#[test]
fn feedback_marks_and_closing_lines() {
    assert_eq!(feedback_prefix(FeedbackKind::Good), "\u{2713} ");
    assert_eq!(feedback_prefix(FeedbackKind::Warning), "\u{26a0} ");
    assert_eq!(feedback_prefix(FeedbackKind::Bad), "\u{2717} ");
    assert_eq!(feedback_prefix(FeedbackKind::Info), "  ");
    assert_eq!(closing_line(true), "\n  Chapter complete! Press Enter to continue.");
    assert_eq!(closing_line(false), "\n  Not quite. Press r to retry or Enter to return to menu.");
}

#[test]
fn input_screen_follows_the_fields() {
    let mut app = App::new(Progress::default());
    app.handle_key(Key::Enter);
    app.handle_key(Key::Enter);
    let v = input_screen(&app);
    assert!(v.premium_focused && v.premium_placeholder);
    assert_eq!(v.premium_text, "enter amount...");
    assert_eq!(v.premium_cursor, Some(0));
    assert!(!v.count_shown && !v.count_focused);
    assert_eq!(v.count_cursor, None);
    for c in "4800".chars() {
        app.handle_key(Key::Char(c));
    }
    let v = input_screen(&app);
    assert!(!v.premium_placeholder);
    assert_eq!(v.premium_text, "$ 4800");
    assert_eq!(v.premium_cursor, Some(4));

    let mut p = Progress::default();
    p.mark_complete(1);
    let mut app = App::new(p);
    for k in [Key::Down, Key::Enter, Key::Enter, Key::Tab] {
        app.handle_key(k);
    }
    let v = input_screen(&app);
    assert!(v.count_shown && v.count_focused && !v.premium_focused);
    assert!(!v.premium_placeholder);
    assert_eq!(v.premium_text, "$ ");
    assert_eq!(v.premium_cursor, None);
    assert_eq!(v.count_cursor, Some(3));
}

#[test]
fn visible_years_are_capped() {
    assert_eq!(visible_years(0, 10), 0);
    assert_eq!(visible_years(3, 10), 3);
    assert_eq!(visible_years(12, 10), 10);
}
