//! The screens of the game and how they answer the player's keys.
//!
//! The state machine here decides everything that does not need the numeric
//! simulation. Where a key calls for work in floating point (reading the
//! premium, simulating the years, writing the feedback, carrying the surplus
//! over), `handle_key` answers with an [`Action`] and the front end performs
//! it, handing the result back through [`App::submit_input`] or
//! [`App::generate_feedback`].

use vstd::prelude::*;
use crate::number::{parse_u32, u32_from_text};
use crate::progress::{with_completed, Progress};
use crate::scenarios::{chapter_list, chapter_subtitle, chapter_title, get_scenario, has_scenario, scenario_for, ChapterInfo, Feedback, ScenarioConfig};

verus! {

/// The screen on display.
#[derive(Clone, Copy, PartialEq, Eq, Structural, Debug)]
pub enum Screen {
    Menu,
    Brief,
    Input,
    Simulating,
    Results,
}

/// A key the player pressed.
#[derive(Clone, Copy, PartialEq, Eq, Structural, Debug)]
pub enum Key {
    Char(char),
    Up,
    Down,
    Enter,
    Esc,
    Tab,
    Backspace,
    /// Any key the game does not react to.
    Other,
}

/// Work that a key asks of the front end.
#[derive(Clone, Copy, PartialEq, Eq, Structural, Debug)]
pub enum Action {
    /// Nothing to do.
    Nothing,
    /// Read the premium the player typed and hand the verdict to
    /// [`App::submit_input`].
    CheckPremium,
    /// Write the feedback of the finished simulation and hand it to
    /// [`App::generate_feedback`].
    ShowFeedback,
    /// The chapter was passed: carry the surplus at the end of the last
    /// simulated year over as the company's surplus.
    KeepSurplus,
}

/// The state of the game between two keys.
pub struct App {
    pub screen: Screen,
    pub should_quit: bool,

    pub menu_selection: usize,
    pub chapters: Vec<ChapterInfo>,

    pub progress: Progress,

    pub scenario: Option<ScenarioConfig>,
    pub premium_input: String,
    pub input_error: Option<String>,

    /// The number of policies to write, asked for in chapter 2 only.
    pub policy_count_input: String,
    /// The input field being typed into: 0 for the premium, 1 for the
    /// number of policies.
    pub input_field: usize,

    pub hints_revealed: usize,
    pub show_hints: bool,

    pub sim_current_year: u32,
    pub sim_total_years: u32,
    pub sim_tick: u32,
    pub sim_done: bool,

    pub feedback: Option<Feedback>,
    pub result_scroll: u16,
}

/// Whether `c` may be typed into an input field: a digit or a decimal point.
pub open spec fn is_input_char(c: char) -> bool {
    ('0' <= c && c <= '9') || c == '.'
}

/// Whether every character of `s` may be typed into an input field.
pub open spec fn is_input_text(s: Seq<char>) -> bool {
    forall|i: int| 0 <= i < s.len() ==> is_input_char(#[trigger] s[i])
}

/// The number of ticks for which each simulated year stays on screen before
/// the next one is revealed.
pub open spec fn ticks_per_year() -> u32 {
    5
}

/// The largest number of policies a book may have.
pub open spec fn max_policies() -> u32 {
    1000
}

impl App {
    /// The chapter being played, or 0 on the menu.
    pub open spec fn chapter(&self) -> usize {
        match self.scenario {
            Some(c) => c.chapter,
            None => 0,
        }
    }

    /// The number of hints of the chapter being played.
    pub open spec fn hint_count(&self) -> nat {
        match self.scenario {
            Some(c) => c.hints@.len(),
            None => 0,
        }
    }

    /// Well-formed state: the menu shows exactly when no scenario is set up;
    /// a scenario is the one of its chapter, and no more of its hints are
    /// revealed than it has; the animation never runs past the last year; the
    /// input fields hold only digits and decimal points; and no chapter is
    /// recorded twice.
    pub open spec fn wf(&self) -> bool {
        &&& (self.screen == Screen::Menu) == (self.scenario is None)
        &&& (self.scenario matches Some(c) ==> scenario_for(c.chapter, c)
            && self.hints_revealed <= c.hints@.len())
        &&& self.input_field <= 1
        &&& self.sim_current_year <= self.sim_total_years
        &&& is_input_text(self.premium_input@)
        &&& is_input_text(self.policy_count_input@)
        &&& self.progress.wf()
    }

    /// The keys on which the game would overflow or index out of range: it
    /// answers all others.
    pub open spec fn can_handle(&self, key: Key) -> bool {
        !self.show_hints ==> match self.screen {
            Screen::Menu => match key {
                Key::Down | Key::Char('j') => self.chapters@.len() >= 1,
                Key::Enter => self.menu_selection < self.chapters@.len()
                    && self.chapters@[self.menu_selection as int].number >= 1,
                _ => true,
            },
            Screen::Input => key == Key::Tab && self.chapter() == 2 ==> self.input_field < usize::MAX,
            Screen::Results => key == Key::Down || key == Key::Char('j') ==> self.result_scroll < u16::MAX,
            _ => true,
        }
    }
}

/// The state after revealing the next hint, if any is left, and opening the
/// hint window.
pub open spec fn with_hint(a: App) -> App {
    App {
        show_hints: true,
        hints_revealed: if a.hints_revealed < a.hint_count() {
            (a.hints_revealed + 1) as usize
        } else {
            a.hints_revealed
        },
        ..a
    }
}

/// The state `after` is `before` back on the menu, with no scenario.
pub open spec fn back_to_menu(before: App, after: App) -> bool {
    after == App { screen: Screen::Menu, scenario: None, ..before }
}

/// The answer to a key while the hint window is open: `Esc` or `h` closes
/// it, every other key is ignored.
pub open spec fn hints_response(before: App, after: App, key: Key) -> bool {
    if key == Key::Esc || key == Key::Char('h') {
        after == App { show_hints: false, ..before }
    } else {
        after == before
    }
}

/// The answer to a key on the menu: `q` quits, up and down (or `k` and `j`)
/// move the selection within the list, and `Enter` opens the briefing of the
/// selected chapter when it is unlocked and playable, with fresh inputs and
/// no hints revealed.
pub open spec fn menu_response(before: App, after: App, key: Key) -> bool {
    let sel = before.menu_selection;
    match key {
        Key::Char('q') => after == App { should_quit: true, ..before },
        Key::Up | Key::Char('k') => after == App {
            menu_selection: if sel > 0 { (sel - 1) as usize } else { sel },
            ..before
        },
        Key::Down | Key::Char('j') => after == App {
            menu_selection: if sel + 1 < before.chapters@.len() { (sel + 1) as usize } else { sel },
            ..before
        },
        Key::Enter => {
            let chapter = before.chapters@[sel as int].number;
            if before.progress.unlocked(chapter) && has_scenario(chapter) {
                &&& after == App {
                    screen: Screen::Brief,
                    scenario: after.scenario,
                    hints_revealed: 0,
                    show_hints: false,
                    premium_input: after.premium_input,
                    input_error: None,
                    policy_count_input: after.policy_count_input,
                    input_field: 0,
                    ..before
                }
                &&& after.scenario matches Some(c) && scenario_for(chapter, c) && c.chapter == chapter
                &&& after.premium_input@ == Seq::<char>::empty()
                &&& after.policy_count_input@ == "100"@
            } else {
                after == before
            }
        },
        _ => after == before,
    }
}

/// The answer to a key on a chapter's briefing: `Esc` or `q` goes back to
/// the menu, `Enter` moves on to the inputs, `h` reveals a hint.
pub open spec fn brief_response(before: App, after: App, key: Key) -> bool {
    match key {
        Key::Esc | Key::Char('q') => back_to_menu(before, after),
        Key::Enter => after == App { screen: Screen::Input, ..before },
        Key::Char('h') => after == with_hint(before),
        _ => after == before,
    }
}

/// Whether the policy count is the field being typed into.
pub open spec fn typing_count(a: App) -> bool {
    a.chapter() == 2 && a.input_field == 1
}

/// The answer to a key on the input screen: `Esc` goes back to the
/// briefing, `Tab` switches between the two fields of chapter 2, `Enter`
/// submits (the premium is checked by the front end), `h` reveals a hint,
/// digits and decimal points are typed into the active field and backspace
/// deletes its last character.
pub open spec fn input_response(before: App, after: App, key: Key) -> bool {
    match key {
        Key::Esc => after == App { screen: Screen::Brief, input_error: None, ..before },
        Key::Tab => if before.chapter() == 2 {
            after == App { input_field: ((before.input_field + 1) % 2) as usize, ..before }
        } else {
            after == before
        },
        Key::Enter => after == before,
        Key::Char('h') => after == with_hint(before),
        Key::Char(c) => if is_input_char(c) {
            if typing_count(before) {
                &&& after == App { policy_count_input: after.policy_count_input, ..before }
                &&& after.policy_count_input@ == before.policy_count_input@.push(c)
            } else {
                &&& after == App { premium_input: after.premium_input, ..before }
                &&& after.premium_input@ == before.premium_input@.push(c)
            }
        } else {
            after == before
        },
        Key::Backspace => if typing_count(before) {
            &&& after == App { policy_count_input: after.policy_count_input, ..before }
            &&& after.policy_count_input@ == if before.policy_count_input@.len() > 0 {
                before.policy_count_input@.drop_last()
            } else {
                before.policy_count_input@
            }
        } else {
            &&& after == App { premium_input: after.premium_input, ..before }
            &&& after.premium_input@ == if before.premium_input@.len() > 0 {
                before.premium_input@.drop_last()
            } else {
                before.premium_input@
            }
        },
        _ => after == before,
    }
}

/// Whether `key` is a space or `Enter`.
pub open spec fn is_confirm(key: Key) -> bool {
    key == Key::Char(' ') || key == Key::Enter
}

/// The answer to a key during the simulation: `q` or `Esc` goes back to the
/// menu; space or `Enter` reveals every year at once, or, once all years
/// are shown, moves on to the results.
pub open spec fn simulating_response(before: App, after: App, key: Key) -> bool {
    if key == Key::Char('q') || key == Key::Esc {
        back_to_menu(before, after)
    } else if is_confirm(key) && before.sim_done {
        after == App { screen: Screen::Results, result_scroll: 0, ..before }
    } else if is_confirm(key) {
        after == App { sim_current_year: before.sim_total_years, sim_done: true, ..before }
    } else {
        after == before
    }
}

/// Whether the feedback on display says the chapter was passed.
pub open spec fn passed(a: App) -> bool {
    a.feedback matches Some(f) && f.passed
}

/// The answer to a key on the results: `q` or `Esc` goes back to the menu,
/// up and down (or `k` and `j`) scroll, `r` retries with an empty premium,
/// and `Enter` goes back to the menu after recording the chapter as
/// completed if it was passed.
pub open spec fn results_response(before: App, after: App, key: Key) -> bool {
    match key {
        Key::Esc | Key::Char('q') => back_to_menu(before, after),
        Key::Up | Key::Char('k') => after == App {
            result_scroll: if before.result_scroll > 0 { (before.result_scroll - 1) as u16 } else { 0 },
            ..before
        },
        Key::Down | Key::Char('j') => after == App { result_scroll: (before.result_scroll + 1) as u16, ..before },
        Key::Char('r') => {
            &&& after == App {
                screen: Screen::Input,
                premium_input: after.premium_input,
                input_error: None,
                ..before
            }
            &&& after.premium_input@ == Seq::<char>::empty()
        },
        Key::Enter => {
            &&& after == App { screen: Screen::Menu, scenario: None, progress: after.progress, ..before }
            &&& after.progress.current_chapter == before.progress.current_chapter
            &&& after.progress.completed_chapters@ == if passed(before) {
                with_completed(before.progress.completed_chapters@, before.chapter())
            } else {
                before.progress.completed_chapters@
            }
        },
        _ => after == before,
    }
}

/// How the game answers `key` in state `before`: the state `after` it moves
/// to and the work `action` it asks of the front end.
pub open spec fn key_response(before: App, after: App, key: Key, action: Action) -> bool {
    if before.show_hints {
        hints_response(before, after, key) && action == Action::Nothing
    } else {
        match before.screen {
            Screen::Menu => menu_response(before, after, key) && action == Action::Nothing,
            Screen::Brief => brief_response(before, after, key) && action == Action::Nothing,
            Screen::Input => {
                &&& input_response(before, after, key)
                &&& action == if key == Key::Enter { Action::CheckPremium } else { Action::Nothing }
            },
            Screen::Simulating => {
                &&& simulating_response(before, after, key)
                &&& action == if is_confirm(key) && before.sim_done {
                    Action::ShowFeedback
                } else {
                    Action::Nothing
                }
            },
            Screen::Results => {
                &&& results_response(before, after, key)
                &&& action == if key == Key::Enter && passed(before) {
                    Action::KeepSurplus
                } else {
                    Action::Nothing
                }
            },
        }
    }
}

/// The number of policies the player asked for, if it is acceptable: in
/// chapter 2 the policy count as typed, between 1 and 1000; in every other
/// chapter a single policy.
pub open spec fn requested_policies(a: App) -> Option<u32> {
    if a.chapter() == 2 {
        match u32_from_text(a.policy_count_input@) {
            Some(n) => if 1 <= n <= max_policies() {
                Some(n)
            } else {
                None
            },
            None => None,
        }
    } else {
        Some(1)
    }
}

/// The state `after` is `before` with the error message `message` shown
/// under the inputs.
pub open spec fn shows_error(before: App, after: App, message: Seq<char>) -> bool {
    &&& after == App { input_error: after.input_error, ..before }
    &&& after.input_error matches Some(e) && e@ == message
}

/// The state `after` is `before` with a simulation of `years` years set up
/// from its start, on the simulation screen.
pub open spec fn simulation_started(before: App, after: App, years: u32) -> bool {
    after == App {
        screen: Screen::Simulating,
        sim_current_year: 0,
        sim_total_years: years,
        sim_tick: 0,
        sim_done: false,
        feedback: None,
        input_error: None,
        ..before
    }
}

/// How submitting answers: an invalid premium shows an error; with no
/// chapter being played nothing happens; otherwise an unacceptable number of
/// policies shows an error, and an acceptable one starts the simulation of
/// the chapter's years and is returned.
pub open spec fn submit_response(before: App, after: App, premium_valid: bool, r: Option<u32>) -> bool {
    if !premium_valid {
        r == None::<u32> && shows_error(before, after, "Enter a valid premium amount"@)
    } else {
        match before.scenario {
            None => r == None::<u32> && after == before,
            Some(c) => {
                &&& r == requested_policies(before)
                &&& match r {
                    Some(n) => simulation_started(before, after, c.num_years),
                    None => shows_error(before, after, "Enter 1\u{2013}1000 policies"@),
                }
            },
        }
    }
}

/// The state with `feedback` on display, if a chapter is being played.
pub open spec fn with_feedback(a: App, feedback: Feedback) -> App {
    if a.scenario is Some {
        App { feedback: Some(feedback), ..a }
    } else {
        a
    }
}

/// The state after one tick of the clock: while a simulation is shown and
/// not finished, every fifth tick reveals one more year, and the
/// simulation is finished once the last year is shown.
pub open spec fn ticked(a: App) -> App {
    if a.screen == Screen::Simulating && !a.sim_done {
        let t = a.sim_tick + 1;
        if t >= ticks_per_year() {
            let year = if a.sim_current_year < a.sim_total_years {
                (a.sim_current_year + 1) as u32
            } else {
                a.sim_current_year
            };
            App { sim_tick: 0, sim_current_year: year, sim_done: year >= a.sim_total_years, ..a }
        } else {
            App { sim_tick: t as u32, ..a }
        }
    } else {
        a
    }
}

/// Confirming the results of a passed chapter records it as completed,
/// which unlocks the chapter after it, and asks the front end to keep the
/// surplus the simulation ended with.
pub proof fn lemma_passing_unlocks_next(before: App, after: App, action: Action)
    requires
        key_response(before, after, Key::Enter, action),
        !before.show_hints,
        before.screen == Screen::Results,
        passed(before),
        before.chapter() < usize::MAX,
    ensures
        after.progress.unlocked((before.chapter() + 1) as usize),
        action == Action::KeepSurplus,
        after.screen == Screen::Menu,
{
    crate::progress::lemma_completing_unlocks_next(before.progress.completed_chapters@, before.chapter());
}

/// Confirming the results of a chapter that was not passed records
/// nothing and asks for nothing.
pub proof fn lemma_failing_changes_no_progress(before: App, after: App, action: Action)
    requires
        key_response(before, after, Key::Enter, action),
        !before.show_hints,
        before.screen == Screen::Results,
        !passed(before),
    ensures
        after.progress.completed_chapters@ == before.progress.completed_chapters@,
        action == Action::Nothing,
{
}

/// The animation reveals one more year every fifth tick: from the start of
/// a year, four ticks reveal nothing and the fifth reveals the next year.
pub proof fn lemma_five_ticks_per_year(a: App)
    requires
        a.screen == Screen::Simulating,
        !a.sim_done,
        a.sim_tick == 0,
        a.sim_current_year < a.sim_total_years,
    ensures
        ticked(ticked(ticked(ticked(a)))).sim_current_year == a.sim_current_year,
        ticked(ticked(ticked(ticked(ticked(a))))).sim_current_year == a.sim_current_year + 1,
        ticked(ticked(ticked(ticked(ticked(a))))).sim_tick == 0,
        ticked(ticked(ticked(ticked(ticked(a))))).sim_done == (a.sim_current_year + 1 == a.sim_total_years),
{
}

/// The state after `n` ticks of the clock.
pub open spec fn ticked_times(a: App, n: nat) -> App
    decreases n,
{
    if n == 0 {
        a
    } else {
        ticked(ticked_times(a, (n - 1) as nat))
    }
}

/// The number of ticks left until the last year of a running simulation is
/// revealed.
pub open spec fn ticks_left(a: App) -> int {
    ticks_per_year() * (a.sim_total_years - a.sim_current_year) - a.sim_tick
}

/// Where a running simulation stands after `n` of the ticks it has left:
/// the year and the tick within it advance together, one year per five
/// ticks, and the simulation is finished exactly when none are left.
pub proof fn lemma_ticks_until_done(a: App, n: nat)
    requires
        a.screen == Screen::Simulating,
        !a.sim_done,
        a.sim_tick < ticks_per_year(),
        a.sim_current_year < a.sim_total_years,
        n <= ticks_left(a),
    ensures
        ticked_times(a, n) == (App {
            sim_tick: ((a.sim_tick + n) % 5) as u32,
            sim_current_year: (a.sim_current_year + (a.sim_tick + n) / 5) as u32,
            sim_done: n == ticks_left(a),
            ..a
        }),
        ticked_times(a, n).sim_current_year <= a.sim_total_years,
    decreases n,
{
    if n > 0 {
        lemma_ticks_until_done(a, (n - 1) as nat);
        let t = a.sim_tick + n - 1;
        assert(t % 5 == 4 ==> (t + 1) % 5 == 0 && (t + 1) / 5 == t / 5 + 1);
        assert(t % 5 < 4 ==> (t + 1) % 5 == t % 5 + 1 && (t + 1) / 5 == t / 5);
        assert(t < 5 * (a.sim_total_years - a.sim_current_year));
        assert(t / 5 < a.sim_total_years - a.sim_current_year);
        assert((t + 1) % 5 == 0 ==> (t + 1) == 5 * ((t + 1) / 5));
    }
}

/// Every running simulation finishes: after the ticks it has left the last
/// year is revealed and the simulation is done, and before that it is not.
pub proof fn lemma_simulation_finishes(a: App, n: nat)
    requires
        a.screen == Screen::Simulating,
        !a.sim_done,
        a.sim_tick < ticks_per_year(),
        a.sim_current_year < a.sim_total_years,
        n <= ticks_left(a),
    ensures
        n < ticks_left(a) ==> !ticked_times(a, n).sim_done,
        n == ticks_left(a) ==> ticked_times(a, n).sim_done && ticked_times(a, n).sim_current_year
            == a.sim_total_years,
{
    lemma_ticks_until_done(a, n);
    if n == ticks_left(a) {
        assert(a.sim_tick + n == 5 * (a.sim_total_years - a.sim_current_year));
    }
}

/// On the input screen the field being typed into stays the premium or the
/// policy count: `Tab` switches between them in chapter 2 and does nothing
/// elsewhere, and `Esc` goes back to the briefing with no error shown.
pub proof fn lemma_input_fields(before: App, after: App, key: Key, action: Action)
    requires
        key_response(before, after, key, action),
        !before.show_hints,
        before.screen == Screen::Input,
        before.input_field <= 1,
    ensures
        after.input_field <= 1,
        key == Key::Tab ==> after.input_field == if before.chapter() == 2 {
            1 - before.input_field
        } else {
            before.input_field as int
        },
        key == Key::Esc ==> after.screen == Screen::Brief && after.input_error is None,
{
}

/// Only `q` on the menu quits the game; on the briefing, the simulation
/// and the results, `q` and `Esc` both go back to the menu, giving up the
/// chapter being played without recording anything.
pub proof fn lemma_leaving_and_quitting(before: App, after: App, key: Key, action: Action)
    requires
        key_response(before, after, key, action),
    ensures
        after.should_quit == (before.should_quit || (!before.show_hints && before.screen == Screen::Menu && key
            == Key::Char('q'))),
        !before.show_hints && (before.screen == Screen::Brief || before.screen == Screen::Simulating
            || before.screen == Screen::Results) && (key == Key::Esc || key == Key::Char('q')) ==> {
            &&& after.screen == Screen::Menu
            &&& after.scenario is None
            &&& after.progress == before.progress
            &&& action == Action::Nothing
        },
{
}

/// What every key keeps: the list of chapters never changes; progress
/// changes only when the results of a passed chapter are confirmed, and
/// then only by recording that chapter, keeping every earlier completion;
/// the menu selection stays within the list; and hints are revealed one at
/// a time, never taken back while a chapter is being played.
pub proof fn lemma_what_keys_keep(before: App, after: App, key: Key, action: Action)
    requires
        key_response(before, after, key, action),
    ensures
        after.chapters == before.chapters,
        !(before.screen == Screen::Results && !before.show_hints && key == Key::Enter && passed(before))
            ==> after.progress.completed_chapters@ == before.progress.completed_chapters@,
        after.progress.current_chapter == before.progress.current_chapter,
        before.screen == Screen::Results && !before.show_hints && key == Key::Enter && passed(before) ==> {
            &&& after.progress.completed_chapters@.contains(before.chapter())
            &&& forall|c: usize| #[trigger]
                before.progress.completed_chapters@.contains(c) ==> after.progress.completed_chapters@.contains(c)
        },
        !before.show_hints && before.screen == Screen::Menu && before.menu_selection < before.chapters@.len()
            ==> after.menu_selection < after.chapters@.len(),
        before.screen != Screen::Menu && before.hints_revealed < usize::MAX ==> before.hints_revealed
            <= after.hints_revealed <= before.hints_revealed + 1,
{
    if before.screen == Screen::Results && !before.show_hints && key == Key::Enter && passed(before) {
        let old_seq = before.progress.completed_chapters@;
        let ch = before.chapter();
        if !old_seq.contains(ch) {
            assert(old_seq.push(ch)[old_seq.len() as int] == ch);
            assert forall|c: usize| #[trigger] old_seq.contains(c) implies old_seq.push(ch).contains(c) by {
                let j = choose|j: int| 0 <= j < old_seq.len() && old_seq[j] == c;
                assert(old_seq.push(ch)[j] == c);
            }
        }
    }
}

/// Once the simulation is finished, ticks change nothing.
pub proof fn lemma_finished_simulation_stays(a: App)
    requires
        a.sim_done,
    ensures
        ticked(a) == a,
{
}

/// While the hint window is open, no key but `Esc` and `h` changes the
/// state, and those only close the window.
pub proof fn lemma_hint_window_is_modal(before: App, after: App, key: Key, action: Action)
    requires
        key_response(before, after, key, action),
        before.show_hints,
    ensures
        action == Action::Nothing,
        key != Key::Esc && key != Key::Char('h') ==> after == before,
        key == Key::Esc || key == Key::Char('h') ==> after == (App { show_hints: false, ..before }),
{
}

/// Whether `c` may be typed into an input field.
fn input_char(c: char) -> (b: bool)
    ensures
        b == is_input_char(c),
{
    ('0' <= c && c <= '9') || c == '.'
}

impl App {
    /// The game as it starts: on the menu, with the chapter after the
    /// player's current one selected, nothing typed and no simulation run.
    pub fn new(progress: Progress) -> (app: App)
        ensures
            app.screen == Screen::Menu,
            !app.should_quit,
            app.menu_selection == if progress.current_chapter > 0 {
                (progress.current_chapter - 1) as usize
            } else {
                0
            },
            app.chapters@.len() == 10,
            forall|i: int|
                0 <= i < 10 ==> {
                    &&& #[trigger] app.chapters@[i].number == i + 1
                    &&& app.chapters@[i].title@ == chapter_title(i + 1)
                    &&& app.chapters@[i].subtitle@ == chapter_subtitle(i + 1)
                },
            app.progress == progress,
            app.scenario is None,
            app.premium_input@ == Seq::<char>::empty(),
            app.input_error is None,
            app.policy_count_input@ == "100"@,
            app.input_field == 0,
            app.hints_revealed == 0,
            !app.show_hints,
            app.sim_current_year == 0,
            app.sim_total_years == 0,
            app.sim_tick == 0,
            !app.sim_done,
            app.feedback is None,
            app.result_scroll == 0,
            progress.wf() ==> app.wf(),
    {
        let menu_selection = progress.current_chapter.saturating_sub(1);
        let app = App {
            screen: Screen::Menu,
            should_quit: false,
            menu_selection,
            chapters: chapter_list(),
            progress,
            scenario: None,
            premium_input: String::new(),
            input_error: None,
            policy_count_input: String::from_str("100"),
            input_field: 0,
            hints_revealed: 0,
            show_hints: false,
            sim_current_year: 0,
            sim_total_years: 0,
            sim_tick: 0,
            sim_done: false,
            feedback: None,
            result_scroll: 0,
        };
        proof {
            reveal_strlit("100");
        }
        app
    }

    /// The chapter being played, or 0 when none is.
    pub fn active_chapter(&self) -> (c: usize)
        ensures
            c == self.chapter(),
    {
        match &self.scenario {
            Some(s) => s.chapter,
            None => 0,
        }
    }

    /// Whether the game can answer `key` in this state (see
    /// [`App::can_handle`]); the front end checks it before handing a key
    /// over.
    pub fn can_handle_key(&self, key: Key) -> (b: bool)
        ensures
            b == self.can_handle(key),
    {
        if self.show_hints {
            return true;
        }
        match self.screen {
            Screen::Menu => match key {
                Key::Down | Key::Char('j') => self.chapters.len() >= 1,
                Key::Enter => self.menu_selection < self.chapters.len()
                    && self.chapters[self.menu_selection].number >= 1,
                _ => true,
            },
            Screen::Input => !(key == Key::Tab && self.active_chapter() == 2) || self.input_field < usize::MAX,
            Screen::Results => !(key == Key::Down || key == Key::Char('j')) || self.result_scroll < u16::MAX,
            _ => true,
        }
    }

    /// Answers a key: moves to the next state and says what work, if any,
    /// the front end has to do. The game is left when `should_quit` is set.
    pub fn handle_key(&mut self, key: Key) -> (action: Action)
        requires
            old(self).can_handle(key),
        ensures
            key_response(*old(self), *final(self), key, action),
            old(self).wf() ==> final(self).wf(),
            final(self).should_quit == (old(self).should_quit || (!old(self).show_hints && old(self).screen
                == Screen::Menu && key == Key::Char('q'))),
            !old(self).show_hints && (old(self).screen == Screen::Brief || old(self).screen == Screen::Simulating
                || old(self).screen == Screen::Results) && (key == Key::Esc || key == Key::Char('q'))
                ==> final(self).screen == Screen::Menu && final(self).scenario == None::<ScenarioConfig>,
    {
        if self.show_hints {
            match key {
                Key::Esc | Key::Char('h') => self.show_hints = false,
                _ => {},
            }
            return Action::Nothing;
        }
        match self.screen {
            Screen::Menu => {
                self.handle_menu_key(key);
                Action::Nothing
            },
            Screen::Brief => {
                self.handle_brief_key(key);
                Action::Nothing
            },
            Screen::Input => self.handle_input_key(key),
            Screen::Simulating => self.handle_sim_key(key),
            Screen::Results => self.handle_results_key(key),
        }
    }

    /// Submits the inputs, once the front end has read the premium the
    /// player typed: `premium_valid` says whether it is a number above zero.
    /// With a valid premium and an acceptable number of policies, the
    /// simulation is set up from its first year and the number of policies
    /// to simulate is returned; the front end then runs the years. Otherwise
    /// an error message is shown and nothing is returned.
    pub fn submit_input(&mut self, premium_valid: bool) -> (r: Option<u32>)
        ensures
            submit_response(*old(self), *final(self), premium_valid, r),
            old(self).wf() ==> final(self).wf(),
            r matches Some(n) ==> 1 <= n <= 1000 && premium_valid && old(self).scenario is Some,
            premium_valid && old(self).scenario is Some && old(self).chapter() != 2 ==> r == Some(1u32),
            premium_valid && old(self).chapter() == 2 ==> (r is Some <==> (u32_from_text(
                old(self).policy_count_input@,
            ) matches Some(n) && 1 <= n <= 1000)),
            premium_valid && old(self).chapter() == 2 && r is Some ==> r == u32_from_text(
                old(self).policy_count_input@,
            ),
            r is Some ==> final(self).screen == Screen::Simulating && final(self).sim_current_year == 0
                && !final(self).sim_done && final(self).input_error == None::<String>,
            r is None ==> final(self).screen == old(self).screen && final(self).progress == old(self).progress,
    {
        if !premium_valid {
            self.input_error = Some(String::from_str("Enter a valid premium amount"));
            return None;
        }
        let (chapter, num_years) = match &self.scenario {
            Some(c) => (c.chapter, c.num_years),
            None => return None,
        };
        let num_policies: u32 = if chapter == 2 {
            match parse_u32(self.policy_count_input.as_str()) {
                Some(v) if v > 0 && v <= 1000 => v,
                _ => {
                    self.input_error = Some(String::from_str("Enter 1\u{2013}1000 policies"));
                    return None;
                },
            }
        } else {
            1
        };
        self.sim_current_year = 0;
        self.sim_total_years = num_years;
        self.sim_tick = 0;
        self.sim_done = false;
        self.feedback = None;
        self.input_error = None;
        self.screen = Screen::Simulating;
        Some(num_policies)
    }

    /// Shows the feedback the front end wrote for the finished simulation,
    /// if a chapter is being played.
    pub fn generate_feedback(&mut self, feedback: Feedback)
        ensures
            *final(self) == with_feedback(*old(self), feedback),
            old(self).wf() ==> final(self).wf(),
    {
        if self.scenario.is_some() {
            self.feedback = Some(feedback);
        }
    }

    /// Advances the simulation's animation by one tick.
    pub fn tick(&mut self)
        requires
            old(self).screen == Screen::Simulating && !old(self).sim_done ==> old(self).sim_tick < u32::MAX,
        ensures
            *final(self) == ticked(*old(self)),
            old(self).wf() ==> final(self).wf(),
    {
        if self.screen == Screen::Simulating && !self.sim_done {
            self.sim_tick = self.sim_tick + 1;
            if self.sim_tick >= 5 {
                self.sim_tick = 0;
                if self.sim_current_year < self.sim_total_years {
                    self.sim_current_year = self.sim_current_year + 1;
                }
                if self.sim_current_year >= self.sim_total_years {
                    self.sim_done = true;
                }
            }
        }
    }

    fn reveal_hint(&mut self)
        ensures
            *final(self) == with_hint(*old(self)),
    {
        self.show_hints = true;
        let n = match &self.scenario {
            Some(config) => config.hints.len(),
            None => 0,
        };
        if self.hints_revealed < n {
            self.hints_revealed = self.hints_revealed + 1;
        }
    }

    fn handle_menu_key(&mut self, key: Key)
        requires
            !old(self).show_hints,
            old(self).screen == Screen::Menu,
            old(self).can_handle(key),
        ensures
            menu_response(*old(self), *final(self), key),
            old(self).wf() ==> final(self).wf(),
    {
        match key {
            Key::Char('q') => self.should_quit = true,
            Key::Up | Key::Char('k') => {
                if self.menu_selection > 0 {
                    self.menu_selection = self.menu_selection - 1;
                }
            },
            Key::Down | Key::Char('j') => {
                if self.menu_selection < self.chapters.len() - 1 {
                    self.menu_selection = self.menu_selection + 1;
                }
            },
            Key::Enter => {
                let chapter = self.chapters[self.menu_selection].number;
                if self.progress.is_unlocked(chapter) {
                    if let Some(config) = get_scenario(chapter) {
                        self.scenario = Some(config);
                        self.screen = Screen::Brief;
                        self.hints_revealed = 0;
                        self.show_hints = false;
                        self.premium_input.clear();
                        self.input_error = None;
                        self.policy_count_input = String::from_str("100");
                        self.input_field = 0;
                        proof {
                            reveal_strlit("100");
                        }
                    }
                }
            },
            _ => {},
        }
    }

    fn handle_brief_key(&mut self, key: Key)
        requires
            !old(self).show_hints,
            old(self).screen == Screen::Brief,
        ensures
            brief_response(*old(self), *final(self), key),
            old(self).wf() ==> final(self).wf(),
            key == Key::Esc || key == Key::Char('q') ==> final(self).screen == Screen::Menu
                && final(self).scenario == None::<ScenarioConfig> && final(self).should_quit == old(self).should_quit,
    {
        match key {
            Key::Esc | Key::Char('q') => {
                self.screen = Screen::Menu;
                self.scenario = None;
            },
            Key::Enter => {
                self.screen = Screen::Input;
            },
            Key::Char('h') => self.reveal_hint(),
            _ => {},
        }
    }

    fn handle_input_key(&mut self, key: Key) -> (action: Action)
        requires
            !old(self).show_hints,
            old(self).screen == Screen::Input,
            old(self).can_handle(key),
        ensures
            input_response(*old(self), *final(self), key),
            action == if key == Key::Enter { Action::CheckPremium } else { Action::Nothing },
            old(self).wf() ==> final(self).wf(),
            old(self).input_field <= 1 ==> final(self).input_field <= 1,
            key == Key::Tab && old(self).input_field <= 1 ==> final(self).input_field == if old(self).chapter() == 2 {
                1 - old(self).input_field
            } else {
                old(self).input_field as int
            },
            key == Key::Esc ==> final(self).screen == Screen::Brief && final(self).input_error == None::<String>,
    {
        match key {
            Key::Esc => {
                self.screen = Screen::Brief;
                self.input_error = None;
            },
            Key::Tab => {
                if self.active_chapter() == 2 {
                    self.input_field = (self.input_field + 1) % 2;
                }
            },
            Key::Enter => return Action::CheckPremium,
            Key::Char('h') => self.reveal_hint(),
            Key::Char(c) => {
                if input_char(c) {
                    if self.active_chapter() == 2 && self.input_field == 1 {
                        self.policy_count_input.push(c);
                    } else {
                        self.premium_input.push(c);
                    }
                }
            },
            Key::Backspace => {
                if self.active_chapter() == 2 && self.input_field == 1 {
                    self.policy_count_input.pop();
                } else {
                    self.premium_input.pop();
                }
            },
            _ => {},
        }
        Action::Nothing
    }

    fn handle_sim_key(&mut self, key: Key) -> (action: Action)
        requires
            !old(self).show_hints,
            old(self).screen == Screen::Simulating,
        ensures
            simulating_response(*old(self), *final(self), key),
            action == if is_confirm(key) && old(self).sim_done {
                Action::ShowFeedback
            } else {
                Action::Nothing
            },
            old(self).wf() ==> final(self).wf(),
    {
        match key {
            Key::Char('q') | Key::Esc => {
                self.screen = Screen::Menu;
                self.scenario = None;
                Action::Nothing
            },
            Key::Char(' ') | Key::Enter => {
                if self.sim_done {
                    self.screen = Screen::Results;
                    self.result_scroll = 0;
                    Action::ShowFeedback
                } else {
                    self.sim_current_year = self.sim_total_years;
                    self.sim_done = true;
                    Action::Nothing
                }
            },
            _ => Action::Nothing,
        }
    }

    fn handle_results_key(&mut self, key: Key) -> (action: Action)
        requires
            !old(self).show_hints,
            old(self).screen == Screen::Results,
            old(self).can_handle(key),
        ensures
            results_response(*old(self), *final(self), key),
            action == if key == Key::Enter && passed(*old(self)) {
                Action::KeepSurplus
            } else {
                Action::Nothing
            },
            old(self).wf() ==> final(self).wf(),
    {
        match key {
            Key::Char('q') | Key::Esc => {
                self.screen = Screen::Menu;
                self.scenario = None;
                Action::Nothing
            },
            Key::Up | Key::Char('k') => {
                self.result_scroll = self.result_scroll.saturating_sub(1);
                Action::Nothing
            },
            Key::Down | Key::Char('j') => {
                self.result_scroll = self.result_scroll + 1;
                Action::Nothing
            },
            Key::Char('r') => {
                self.screen = Screen::Input;
                self.premium_input.clear();
                self.input_error = None;
                Action::Nothing
            },
            Key::Enter => {
                let mut action = Action::Nothing;
                let is_passed = match &self.feedback {
                    Some(feedback) => feedback.passed,
                    None => false,
                };
                if is_passed {
                    let chapter = self.active_chapter();
                    self.progress.mark_complete(chapter);
                    action = Action::KeepSurplus;
                }
                self.screen = Screen::Menu;
                self.scenario = None;
                action
            },
            _ => Action::Nothing,
        }
    }
}

} // verus!
