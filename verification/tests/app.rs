use actuary::app::{Action, App, Key, Screen};
use actuary::progress::Progress;
use actuary::scenarios::{Feedback, FeedbackKind};

fn fresh() -> App {
    App::new(Progress::default())
}

fn press(app: &mut App, keys: &[Key]) -> Action {
    let mut last = Action::Nothing;
    for k in keys {
        last = app.handle_key(*k);
    }
    last
}

fn type_text(app: &mut App, text: &str) {
    for c in text.chars() {
        app.handle_key(Key::Char(c));
    }
}

#[test]
fn new_app_starts_on_menu() {
    let app = fresh();
    assert_eq!(app.screen, Screen::Menu);
    assert_eq!(app.menu_selection, 0);
    assert_eq!(app.chapters.len(), 10);
    assert_eq!(app.policy_count_input, "100");
    assert!(app.scenario.is_none());
    assert_eq!(app.active_chapter(), 0);
    let mut p = Progress::default();
    p.current_chapter = 3;
    assert_eq!(App::new(p).menu_selection, 2);
    let mut q = Progress::default();
    q.current_chapter = 0;
    assert_eq!(App::new(q).menu_selection, 0);
}

#[test]
fn menu_navigation_stays_in_range() {
    let mut app = fresh();
    press(&mut app, &[Key::Up, Key::Char('k')]);
    assert_eq!(app.menu_selection, 0);
    press(&mut app, &[Key::Down, Key::Char('j')]);
    assert_eq!(app.menu_selection, 2);
    for _ in 0..20 {
        app.handle_key(Key::Down);
    }
    assert_eq!(app.menu_selection, 9);
    app.handle_key(Key::Char('q'));
    assert!(app.should_quit);
}

#[test]
fn locked_chapter_does_not_open() {
    let mut app = fresh();
    press(&mut app, &[Key::Down, Key::Enter]);
    assert_eq!(app.screen, Screen::Menu);
    assert!(app.scenario.is_none());
}

#[test]
fn opening_chapter_one_shows_brief() {
    let mut app = fresh();
    app.handle_key(Key::Enter);
    assert_eq!(app.screen, Screen::Brief);
    assert_eq!(app.active_chapter(), 1);
    assert_eq!(app.hints_revealed, 0);
    app.handle_key(Key::Esc);
    assert_eq!(app.screen, Screen::Menu);
    assert!(app.scenario.is_none());
}

#[test]
fn hints_are_revealed_one_at_a_time_and_capped() {
    let mut app = fresh();
    app.handle_key(Key::Enter);
    app.handle_key(Key::Char('h'));
    assert!(app.show_hints);
    assert_eq!(app.hints_revealed, 1);
    // While the window is open, other keys do nothing.
    app.handle_key(Key::Enter);
    assert_eq!(app.screen, Screen::Brief);
    assert!(app.show_hints);
    app.handle_key(Key::Char('h'));
    assert!(!app.show_hints);
    for _ in 0..10 {
        app.handle_key(Key::Char('h'));
        app.handle_key(Key::Esc);
    }
    assert_eq!(app.hints_revealed, 4);
}

#[test]
fn typing_accepts_only_digits_and_points() {
    let mut app = fresh();
    press(&mut app, &[Key::Enter, Key::Enter]);
    assert_eq!(app.screen, Screen::Input);
    type_text(&mut app, "4a8-0q0.5x");
    assert_eq!(app.premium_input, "4800.5");
    press(&mut app, &[Key::Backspace, Key::Backspace]);
    assert_eq!(app.premium_input, "4800");
    // Tab does nothing outside chapter 2.
    app.handle_key(Key::Tab);
    assert_eq!(app.input_field, 0);
    assert_eq!(app.handle_key(Key::Enter), Action::CheckPremium);
    assert_eq!(app.screen, Screen::Input);
}

#[test]
fn invalid_premium_shows_error() {
    let mut app = fresh();
    press(&mut app, &[Key::Enter, Key::Enter]);
    assert_eq!(app.submit_input(false), None);
    assert_eq!(app.input_error.as_deref(), Some("Enter a valid premium amount"));
    assert_eq!(app.screen, Screen::Input);
    app.handle_key(Key::Esc);
    assert!(app.input_error.is_none());
    assert_eq!(app.screen, Screen::Brief);
}

#[test]
fn chapter_one_simulates_one_policy() {
    let mut app = fresh();
    press(&mut app, &[Key::Enter, Key::Enter]);
    type_text(&mut app, "5000");
    assert_eq!(app.submit_input(true), Some(1));
    assert_eq!(app.screen, Screen::Simulating);
    assert_eq!(app.sim_total_years, 10);
    assert_eq!(app.sim_current_year, 0);
    assert!(!app.sim_done);
}

#[test]
fn ticks_reveal_a_year_every_five() {
    let mut app = fresh();
    press(&mut app, &[Key::Enter, Key::Enter]);
    app.submit_input(true);
    for _ in 0..4 {
        app.tick();
    }
    assert_eq!(app.sim_current_year, 0);
    app.tick();
    assert_eq!(app.sim_current_year, 1);
    assert_eq!(app.sim_tick, 0);
    for _ in 0..45 {
        app.tick();
    }
    assert_eq!(app.sim_current_year, 10);
    assert!(app.sim_done);
    app.tick();
    assert_eq!(app.sim_current_year, 10);
}

#[test]
fn skipping_reveals_all_years_then_results() {
    let mut app = fresh();
    press(&mut app, &[Key::Enter, Key::Enter]);
    app.submit_input(true);
    assert_eq!(app.handle_key(Key::Char(' ')), Action::Nothing);
    assert!(app.sim_done);
    assert_eq!(app.sim_current_year, 10);
    assert_eq!(app.handle_key(Key::Enter), Action::ShowFeedback);
    assert_eq!(app.screen, Screen::Results);
    assert_eq!(app.result_scroll, 0);
}

fn finish_chapter_one(app: &mut App, passed: bool) -> Action {
    press(app, &[Key::Enter, Key::Enter]);
    app.submit_input(true);
    press(app, &[Key::Enter, Key::Enter]);
    app.generate_feedback(Feedback { lines: vec![(FeedbackKind::Info, String::from("x"))], passed });
    assert!(app.feedback.is_some());
    press(app, &[Key::Down, Key::Down, Key::Up]);
    assert_eq!(app.result_scroll, 1);
    app.handle_key(Key::Enter)
}

#[test]
fn passing_chapter_one_unlocks_chapter_two() {
    let mut app = fresh();
    assert_eq!(finish_chapter_one(&mut app, true), Action::KeepSurplus);
    assert_eq!(app.screen, Screen::Menu);
    assert_eq!(app.progress.completed_chapters, vec![1]);
    assert!(app.progress.is_unlocked(2));
    press(&mut app, &[Key::Down, Key::Enter]);
    assert_eq!(app.screen, Screen::Brief);
    assert_eq!(app.active_chapter(), 2);
}

#[test]
fn failing_chapter_one_records_nothing() {
    let mut app = fresh();
    assert_eq!(finish_chapter_one(&mut app, false), Action::Nothing);
    assert!(app.progress.completed_chapters.is_empty());
    assert!(!app.progress.is_unlocked(2));
}

#[test]
fn retry_clears_the_premium() {
    let mut app = fresh();
    press(&mut app, &[Key::Enter, Key::Enter]);
    type_text(&mut app, "123");
    app.submit_input(true);
    press(&mut app, &[Key::Enter, Key::Enter]);
    app.handle_key(Key::Char('r'));
    assert_eq!(app.screen, Screen::Input);
    assert_eq!(app.premium_input, "");
}

fn open_chapter_two() -> App {
    let mut p = Progress::default();
    p.mark_complete(1);
    let mut app = App::new(p);
    press(&mut app, &[Key::Down, Key::Enter, Key::Enter]);
    assert_eq!(app.screen, Screen::Input);
    app
}

#[test]
fn chapter_two_asks_for_a_policy_count() {
    let mut app = open_chapter_two();
    type_text(&mut app, "4800");
    app.handle_key(Key::Tab);
    assert_eq!(app.input_field, 1);
    press(&mut app, &[Key::Backspace, Key::Backspace, Key::Backspace]);
    assert_eq!(app.policy_count_input, "");
    type_text(&mut app, "500");
    assert_eq!(app.policy_count_input, "500");
    assert_eq!(app.premium_input, "4800");
    app.handle_key(Key::Tab);
    assert_eq!(app.input_field, 0);
    assert_eq!(app.submit_input(true), Some(500));
    assert_eq!(app.sim_total_years, 5);
}

#[test]
fn chapter_two_default_count_is_one_hundred() {
    let mut app = open_chapter_two();
    assert_eq!(app.submit_input(true), Some(100));
}

#[test]
fn chapter_two_rejects_bad_counts() {
    for text in ["0", "1001", "", "5.", "99999999999"] {
        let mut app = open_chapter_two();
        app.handle_key(Key::Tab);
        press(&mut app, &[Key::Backspace, Key::Backspace, Key::Backspace]);
        type_text(&mut app, text);
        assert_eq!(app.submit_input(true), None, "count {:?}", text);
        assert_eq!(app.input_error.as_deref(), Some("Enter 1\u{2013}1000 policies"));
        assert_eq!(app.screen, Screen::Input);
    }
    let mut app = open_chapter_two();
    app.handle_key(Key::Tab);
    press(&mut app, &[Key::Backspace, Key::Backspace, Key::Backspace]);
    type_text(&mut app, "1000");
    assert_eq!(app.submit_input(true), Some(1000));
}

#[test]
fn quitting_the_simulation_returns_to_menu() {
    let mut app = fresh();
    press(&mut app, &[Key::Enter, Key::Enter]);
    app.submit_input(true);
    app.handle_key(Key::Esc);
    assert_eq!(app.screen, Screen::Menu);
    assert!(app.scenario.is_none());
}

#[test]
fn keys_that_would_overflow_are_refused() {
    let mut p = Progress::default();
    p.current_chapter = 20;
    let mut app = App::new(p);
    assert!(!app.can_handle_key(Key::Enter));
    assert!(app.can_handle_key(Key::Down));
    app.handle_key(Key::Up);
    assert_eq!(app.menu_selection, 18);
    let mut app = fresh();
    assert!(app.can_handle_key(Key::Enter));
    press(&mut app, &[Key::Enter, Key::Enter]);
    app.submit_input(true);
    press(&mut app, &[Key::Enter, Key::Enter]);
    assert_eq!(app.screen, Screen::Results);
    app.result_scroll = u16::MAX;
    assert!(!app.can_handle_key(Key::Down));
    assert!(app.can_handle_key(Key::Up));
}

#[test]
fn feedback_needs_a_chapter() {
    let mut app = fresh();
    app.generate_feedback(Feedback { lines: vec![], passed: true });
    assert!(app.feedback.is_none());
}

#[test]
fn simulation_finishes_after_the_ticks_it_has_left() {
    let mut p = Progress::default();
    p.mark_complete(1);
    let mut app = App::new(p);
    press(&mut app, &[Key::Down, Key::Enter, Key::Enter]);
    app.submit_input(true);
    assert_eq!(app.sim_total_years, 5);
    app.tick();
    app.tick();
    // Five years of five ticks, two of them spent.
    for n in 0..23 {
        assert!(!app.sim_done, "done after {} more ticks", n);
        app.tick();
        assert!(app.sim_current_year <= 5);
    }
    assert!(app.sim_done);
    assert_eq!(app.sim_current_year, 5);
}
