//! The chapters of the game, the scenario each playable chapter sets up, and
//! the feedback a chapter gives once its simulation has run.

pub mod chapter1;
pub mod chapter2;

use vstd::prelude::*;
use crate::engine::{copy_perils, Peril, Policy};

verus! {

/// The set-up of a playable chapter. Money is in cents and the expense
/// ratio in basis points of the premium.
pub struct ScenarioConfig {
    pub chapter: usize,
    pub title: &'static str,
    pub subtitle: &'static str,
    pub brief: Vec<&'static str>,
    pub perils: Vec<Peril>,
    pub property_value_cents: u64,
    pub expense_ratio_bp: u32,
    pub num_years: u32,
    pub hints: Vec<&'static str>,
    pub max_market_premium_cents: u64,
}

/// How a feedback line is to be read.
#[derive(Clone, Copy, PartialEq, Eq, Structural, Debug)]
pub enum FeedbackKind {
    Good,
    Warning,
    Bad,
    Info,
}

/// The written feedback of a finished chapter and whether it was passed.
pub struct Feedback {
    pub lines: Vec<(FeedbackKind, String)>,
    pub passed: bool,
}

/// What a chapter's rules make of a simulation: the lines of feedback to give,
/// each a kind and a note that names the message, and whether the chapter is
/// passed.
pub struct Assessment<N> {
    pub notes: Vec<(FeedbackKind, N)>,
    pub passed: bool,
}

/// Whether `p` is the peril named `name` with the given frequency and
/// severity.
pub open spec fn peril_is(p: Peril, name: Seq<char>, frequency_bp: u32, severity_bp: u32) -> bool {
    &&& p.name@ == name
    &&& p.frequency_bp == frequency_bp
    &&& p.severity_bp == severity_bp
}

/// The perils of a single-family home in the first chapters: fire (2% a
/// year, 40% of the value), water (5%, 10%) and theft (0.5%, 5%).
pub open spec fn home_perils(v: Seq<Peril>) -> bool {
    &&& v.len() == 3
    &&& peril_is(v[0], "Fire"@, 200, 4000)
    &&& peril_is(v[1], "Water"@, 500, 1000)
    &&& peril_is(v[2], "Theft"@, 50, 500)
}

fn peril(name: &str, frequency_bp: u32, severity_bp: u32) -> (p: Peril)
    ensures
        peril_is(p, name@, frequency_bp, severity_bp),
{
    Peril { name: String::from_str(name), frequency_bp, severity_bp }
}

/// The perils of the home insured in the first chapters.
pub fn home_peril_list() -> (v: Vec<Peril>)
    ensures
        home_perils(v@),
{
    let mut v: Vec<Peril> = Vec::new();
    v.push(peril("Fire", 200, 4000));
    v.push(peril("Water", 500, 1000));
    v.push(peril("Theft", 50, 500));
    v
}

/// The views of a list of text lines.
pub open spec fn text_lines(v: Seq<&'static str>) -> Seq<Seq<char>> {
    v.map_values(|s: &'static str| s@)
}

/// Whether `chapter` is one of the playable chapters.
pub open spec fn has_scenario(chapter: usize) -> bool {
    chapter == 1 || chapter == 2
}

/// Whether `c` is the scenario of `chapter`.
pub open spec fn scenario_for(chapter: usize, c: ScenarioConfig) -> bool {
    ||| chapter == 1 && chapter1::is_config(c)
    ||| chapter == 2 && chapter2::is_config(c)
}

/// The scenario of a playable chapter; `None` for a chapter that cannot be
/// played yet.
pub fn get_scenario(chapter: usize) -> (r: Option<ScenarioConfig>)
    ensures
        has_scenario(chapter) <==> r is Some,
        r matches Some(c) ==> scenario_for(chapter, c) && c.chapter == chapter,
{
    if chapter == 1 {
        Some(chapter1::config())
    } else if chapter == 2 {
        Some(chapter2::config())
    } else {
        None
    }
}

/// Whether `p` is policy number `id` of a book written on `config`.
pub open spec fn policy_of(config: ScenarioConfig, id: int, p: Policy) -> bool {
    &&& p.id == id
    &&& p.property_value_cents == config.property_value_cents
    &&& p.perils@ == config.perils@
}

/// A book of `count` policies on the scenario's property, numbered from 0,
/// each against all of the scenario's perils. Every policy of a book is
/// written at the same premium, which the front end keeps beside the book.
pub fn create_policies(config: &ScenarioConfig, count: u32) -> (v: Vec<Policy>)
    ensures
        v@.len() == count,
        forall|i: int| 0 <= i < count ==> policy_of(*config, i, #[trigger] v@[i]),
{
    let mut v: Vec<Policy> = Vec::new();
    let mut id: u32 = 0;
    while id < count
        invariant
            id <= count,
            v@.len() == id,
            forall|i: int| 0 <= i < id ==> policy_of(*config, i, #[trigger] v@[i]),
        decreases count - id,
    {
        v.push(Policy { id, property_value_cents: config.property_value_cents, perils: copy_perils(&config.perils) });
        id = id + 1;
    }
    v
}

/// A chapter of the game as the menu lists it.
pub struct ChapterInfo {
    pub number: usize,
    pub title: &'static str,
    pub subtitle: &'static str,
}

/// The title of chapter `n` (1 to 10).
pub open spec fn chapter_title(n: int) -> Seq<char> {
    if n == 1 {
        "Your First Policy"@
    } else if n == 2 {
        "Growing the Book"@
    } else if n == 3 {
        "Fitting the Curve"@
    } else if n == 4 {
        "Building the Rate Manual"@
    } else if n == 5 {
        "The Long Tail"@
    } else if n == 6 {
        "Sharing the Risk"@
    } else if n == 7 {
        "Systemic Attack Season"@
    } else if n == 8 {
        "The Bottom Line"@
    } else if n == 9 {
        "Capital Allocation"@
    } else {
        "The Full Picture"@
    }
}

/// The subtitle of chapter `n` (1 to 10): the concept it teaches.
pub open spec fn chapter_subtitle(n: int) -> Seq<char> {
    if n == 1 {
        "Expected Value"@
    } else if n == 2 {
        "Law of Large Numbers"@
    } else if n == 3 {
        "Loss Distributions"@
    } else if n == 4 {
        "Ratemaking"@
    } else if n == 5 {
        "Reserving & IBNR"@
    } else if n == 6 {
        "Reinsurance"@
    } else if n == 7 {
        "Catastrophe Modeling"@
    } else if n == 8 {
        "Combined Ratio"@
    } else if n == 9 {
        "Surplus Management"@
    } else {
        "Stochastic Modeling"@
    }
}

/// The number of chapters of the game.
pub open spec fn num_chapters() -> nat {
    10
}

fn chapter_info(number: usize, title: &'static str, subtitle: &'static str) -> (c: ChapterInfo)
    ensures
        c.number == number,
        c.title@ == title@,
        c.subtitle@ == subtitle@,
{
    ChapterInfo { number, title, subtitle }
}

/// The ten chapters of the game, in order: entry `i` is chapter `i + 1` with
/// its title and subtitle.
pub fn chapter_list() -> (v: Vec<ChapterInfo>)
    ensures
        v@.len() == num_chapters(),
        forall|i: int|
            0 <= i < v@.len() ==> {
                &&& #[trigger] v@[i].number == i + 1
                &&& v@[i].title@ == chapter_title(i + 1)
                &&& v@[i].subtitle@ == chapter_subtitle(i + 1)
            },
{
    let mut v: Vec<ChapterInfo> = Vec::new();
    v.push(chapter_info(1, "Your First Policy", "Expected Value"));
    v.push(chapter_info(2, "Growing the Book", "Law of Large Numbers"));
    v.push(chapter_info(3, "Fitting the Curve", "Loss Distributions"));
    v.push(chapter_info(4, "Building the Rate Manual", "Ratemaking"));
    v.push(chapter_info(5, "The Long Tail", "Reserving & IBNR"));
    v.push(chapter_info(6, "Sharing the Risk", "Reinsurance"));
    v.push(chapter_info(7, "Systemic Attack Season", "Catastrophe Modeling"));
    v.push(chapter_info(8, "The Bottom Line", "Combined Ratio"));
    v.push(chapter_info(9, "Capital Allocation", "Surplus Management"));
    v.push(chapter_info(10, "The Full Picture", "Stochastic Modeling"));
    v
}

} // verus!
