//! Chapter 1, "Your First Policy": pricing a single home policy from its
//! expected losses.

use vstd::prelude::*;
use crate::scenarios::{home_peril_list, home_perils, text_lines, Assessment, FeedbackKind, ScenarioConfig};

verus! {

/// The briefing of chapter 1.
pub open spec fn brief_text() -> Seq<Seq<char>> {
    seq![
        "Welcome to Pacific Shield Insurance."@,
        ""@,
        "You've been hired as the company's first actuary. Your CEO has"@,
        "landed the company's very first prospective policyholder \u{2014} a"@,
        "homeowner who needs property coverage."@,
        ""@,
        "Your job: set the annual premium."@,
        ""@,
        "Price it right, and the company profits. Price it too low, and"@,
        "claims eat you alive. Price it too high, and the homeowner walks."@,
    ]
}

/// The hints of chapter 1, revealed one at a time.
pub open spec fn hint_text() -> Seq<Seq<char>> {
    seq![
        "Think about the expected cost of each peril separately.\nWhat's the average loss from fire in any given year?"@,
        "Expected loss per peril = probability x severity x property value.\nCalculate this for each peril and add them up."@,
        "Expected losses:\n  Fire  = 0.02 x 0.40 x $250,000 = $2,000\n  Water = 0.05 x 0.10 x $250,000 = $1,250\n  Theft = 0.005 x 0.05 x $250,000 = $62.50\n  Total pure premium = $3,312.50"@,
        "The pure premium ($3,312.50) only covers expected claims.\n30% of your premium goes to expenses, so:\n  gross premium = pure_premium / (1 - 0.30)\n                = $3,312.50 / 0.70\n                = $4,732.14\nAdd a profit margin on top of that."@,
    ]
}

/// The set-up of chapter 1: one $250,000 home with the usual perils, 30%
/// expenses, ten simulated years and a market premium of $8,000.
pub open spec fn is_config(c: ScenarioConfig) -> bool {
    &&& c.chapter == 1
    &&& c.title@ == "Your First Policy"@
    &&& c.subtitle@ == "Expected Value"@
    &&& text_lines(c.brief@) == brief_text()
    &&& home_perils(c.perils@)
    &&& c.property_value_cents == 25_000_000
    &&& c.expense_ratio_bp == 3000
    &&& c.num_years == 10
    &&& text_lines(c.hints@) == hint_text()
    &&& c.max_market_premium_cents == 800_000
}

/// The scenario of chapter 1.
pub fn config() -> (c: ScenarioConfig)
    ensures
        is_config(c),
{
    let mut brief: Vec<&'static str> = Vec::new();
    brief.push("Welcome to Pacific Shield Insurance.");
    brief.push("");
    brief.push("You've been hired as the company's first actuary. Your CEO has");
    brief.push("landed the company's very first prospective policyholder \u{2014} a");
    brief.push("homeowner who needs property coverage.");
    brief.push("");
    brief.push("Your job: set the annual premium.");
    brief.push("");
    brief.push("Price it right, and the company profits. Price it too low, and");
    brief.push("claims eat you alive. Price it too high, and the homeowner walks.");
    let mut hints: Vec<&'static str> = Vec::new();
    hints.push("Think about the expected cost of each peril separately.\nWhat's the average loss from fire in any given year?");
    hints.push("Expected loss per peril = probability x severity x property value.\nCalculate this for each peril and add them up.");
    hints.push("Expected losses:\n  Fire  = 0.02 x 0.40 x $250,000 = $2,000\n  Water = 0.05 x 0.10 x $250,000 = $1,250\n  Theft = 0.005 x 0.05 x $250,000 = $62.50\n  Total pure premium = $3,312.50");
    hints.push("The pure premium ($3,312.50) only covers expected claims.\n30% of your premium goes to expenses, so:\n  gross premium = pure_premium / (1 - 0.30)\n                = $3,312.50 / 0.70\n                = $4,732.14\nAdd a profit margin on top of that.");
    let c = ScenarioConfig {
        chapter: 1,
        title: "Your First Policy",
        subtitle: "Expected Value",
        brief,
        perils: home_peril_list(),
        property_value_cents: 25_000_000,
        expense_ratio_bp: 3000,
        num_years: 10,
        hints,
        max_market_premium_cents: 800_000,
    };
    assert(text_lines(c.brief@) =~= brief_text());
    assert(text_lines(c.hints@) =~= hint_text());
    c
}

/// The messages that chapter 1 can give, each named after what it says.
#[derive(Clone, Copy, PartialEq, Eq, Structural, Debug)]
pub enum Note {
    /// Years simulated, premiums earned, claims and expenses paid.
    Totals,
    /// Net underwriting income and average loss ratio.
    NetIncome,
    /// The premium did not even cover the pure premium.
    BelowPure,
    /// The premium covered expected losses but not expenses.
    BelowGross,
    /// The premium is above what the market pays.
    AboveMarket,
    /// The premium covers losses and expenses with a profit margin.
    WellPriced,
    /// The company went insolvent during the simulation.
    Insolvent,
    /// The surplus at the end of the simulation.
    FinalSurplus,
    /// An empty line.
    Blank,
    /// The lesson of the chapter.
    Takeaway,
    /// Some years had claims of more than twice the premiums.
    Volatility,
}

/// What the simulation of chapter 1 showed, as far as its rules ask.
#[derive(Clone, Copy)]
pub struct Outcome {
    /// The premium is below the pure premium (the expected losses).
    pub below_pure_premium: bool,
    /// The premium is below the gross premium (expected losses plus expenses).
    pub below_gross_premium: bool,
    /// The premium is above the market premium.
    pub above_market: bool,
    /// The premium is below one and a half times the market premium.
    pub within_market_tolerance: bool,
    /// The surplus fell below zero in some year.
    pub went_insolvent: bool,
    /// Some year's claims were more than twice its premiums.
    pub had_volatile_year: bool,
}

/// The verdict on the premium, checked in order: below the pure premium,
/// below the gross premium, above the market, or well priced.
pub open spec fn pricing_line(o: Outcome) -> (FeedbackKind, Note) {
    if o.below_pure_premium {
        (FeedbackKind::Bad, Note::BelowPure)
    } else if o.below_gross_premium {
        (FeedbackKind::Warning, Note::BelowGross)
    } else if o.above_market {
        (FeedbackKind::Warning, Note::AboveMarket)
    } else {
        (FeedbackKind::Good, Note::WellPriced)
    }
}

/// The feedback lines of chapter 1 for an outcome.
pub open spec fn feedback_lines(o: Outcome) -> Seq<(FeedbackKind, Note)> {
    let head = seq![(FeedbackKind::Info, Note::Totals), (FeedbackKind::Info, Note::NetIncome), pricing_line(o)];
    let solvency = if o.went_insolvent {
        (FeedbackKind::Bad, Note::Insolvent)
    } else {
        (FeedbackKind::Info, Note::FinalSurplus)
    };
    let body = head.push(solvency).push((FeedbackKind::Info, Note::Blank)).push((FeedbackKind::Info, Note::Takeaway));
    if o.had_volatile_year {
        body.push((FeedbackKind::Info, Note::Volatility))
    } else {
        body
    }
}

/// Chapter 1 is passed when the premium covers the gross premium and, if it
/// is above the market premium, stays below one and a half times it.
/// Insolvency alone does not fail the chapter.
pub open spec fn passes(o: Outcome) -> bool {
    !o.below_pure_premium && !o.below_gross_premium && (o.above_market ==> o.within_market_tolerance)
}

/// A premium below the gross premium never passes chapter 1: pricing too
/// low fails whatever the simulated years brought.
pub proof fn lemma_underpricing_fails(o: Outcome)
    requires
        o.below_pure_premium || o.below_gross_premium,
    ensures
        !passes(o),
        feedback_lines(o)[2].0 != FeedbackKind::Good,
{
}

/// A premium between the gross premium and the market premium always
/// passes chapter 1 and is called well priced, even if the company went
/// insolvent.
pub proof fn lemma_fair_premium_passes(o: Outcome)
    requires
        !o.below_pure_premium,
        !o.below_gross_premium,
        !o.above_market,
    ensures
        passes(o),
        feedback_lines(o)[2] == (FeedbackKind::Good, Note::WellPriced),
{
}

/// Whether chapter 1 is passed depends on the premium alone: neither
/// insolvency nor a volatile year changes it.
pub proof fn lemma_only_the_premium_decides(o: Outcome, went_insolvent: bool, had_volatile_year: bool)
    ensures
        passes(o) == passes(Outcome { went_insolvent, had_volatile_year, ..o }),
        passes(o) <==> (!o.below_pure_premium && !o.below_gross_premium && (o.above_market
            ==> o.within_market_tolerance)),
{
}

/// What the feedback of chapter 1 says: totals and net income first; then
/// the verdict on the premium, taken in order (below the pure premium, below
/// the gross premium, above the market, well priced); then insolvency if the
/// company went insolvent and the final surplus otherwise; an empty line and
/// the lesson; and, exactly when some year was volatile, the volatility
/// lesson as the last line.
pub proof fn lemma_feedback_notes(o: Outcome)
    ensures
        feedback_lines(o)[0] == (FeedbackKind::Info, Note::Totals),
        feedback_lines(o)[1] == (FeedbackKind::Info, Note::NetIncome),
        o.below_pure_premium ==> feedback_lines(o)[2] == (FeedbackKind::Bad, Note::BelowPure),
        !o.below_pure_premium && o.below_gross_premium ==> feedback_lines(o)[2] == (
        FeedbackKind::Warning,
        Note::BelowGross,
        ),
        !o.below_pure_premium && !o.below_gross_premium && o.above_market ==> feedback_lines(o)[2] == (
        FeedbackKind::Warning,
        Note::AboveMarket,
        ),
        !o.below_pure_premium && !o.below_gross_premium && !o.above_market ==> feedback_lines(o)[2] == (
        FeedbackKind::Good,
        Note::WellPriced,
        ),
        feedback_lines(o)[3] == if o.went_insolvent {
            (FeedbackKind::Bad, Note::Insolvent)
        } else {
            (FeedbackKind::Info, Note::FinalSurplus)
        },
        feedback_lines(o).len() == if o.had_volatile_year { 7int } else { 6int },
        feedback_lines(o).contains((FeedbackKind::Info, Note::Volatility)) <==> o.had_volatile_year,
        feedback_lines(o).last() == if o.had_volatile_year {
            (FeedbackKind::Info, Note::Volatility)
        } else {
            (FeedbackKind::Info, Note::Takeaway)
        },
        feedback_lines(o).contains((FeedbackKind::Bad, Note::Insolvent)) <==> o.went_insolvent,
{
    let s = feedback_lines(o);
    if o.had_volatile_year {
        assert(s[6] == (FeedbackKind::Info, Note::Volatility));
    }
    if o.went_insolvent {
        assert(s[3] == (FeedbackKind::Bad, Note::Insolvent));
    }
}

/// The rules of chapter 1 applied to what its simulation showed.
pub fn assess(o: &Outcome) -> (a: Assessment<Note>)
    ensures
        a.notes@ == feedback_lines(*o),
        a.passed == passes(*o),
        a.passed == (!o.below_pure_premium && !o.below_gross_premium && (o.above_market
            ==> o.within_market_tolerance)),
        a.notes@.contains((FeedbackKind::Info, Note::Volatility)) <==> o.had_volatile_year,
        o.had_volatile_year ==> a.notes@.last() == (FeedbackKind::Info, Note::Volatility),
        a.notes@.contains((FeedbackKind::Bad, Note::Insolvent)) <==> o.went_insolvent,
{
    proof {
        lemma_feedback_notes(*o);
    }
    let mut notes: Vec<(FeedbackKind, Note)> = Vec::new();
    notes.push((FeedbackKind::Info, Note::Totals));
    notes.push((FeedbackKind::Info, Note::NetIncome));
    let mut passed = true;
    if o.below_pure_premium {
        notes.push((FeedbackKind::Bad, Note::BelowPure));
        passed = false;
    } else if o.below_gross_premium {
        notes.push((FeedbackKind::Warning, Note::BelowGross));
        passed = false;
    } else if o.above_market {
        notes.push((FeedbackKind::Warning, Note::AboveMarket));
        passed = o.within_market_tolerance;
    } else {
        notes.push((FeedbackKind::Good, Note::WellPriced));
    }
    if o.went_insolvent {
        notes.push((FeedbackKind::Bad, Note::Insolvent));
    } else {
        notes.push((FeedbackKind::Info, Note::FinalSurplus));
    }
    notes.push((FeedbackKind::Info, Note::Blank));
    notes.push((FeedbackKind::Info, Note::Takeaway));
    if o.had_volatile_year {
        notes.push((FeedbackKind::Info, Note::Volatility));
    }
    assert(notes@ =~= feedback_lines(*o));
    Assessment { notes, passed }
}

} // verus!
