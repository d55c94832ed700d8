//! Chapter 2, "Growing the Book": how a large book of similar policies makes
//! results predictable.

use vstd::prelude::*;
use crate::scenarios::{home_peril_list, home_perils, text_lines, Assessment, FeedbackKind, ScenarioConfig};

verus! {

/// The briefing of chapter 2.
pub open spec fn brief_text() -> Seq<Seq<char>> {
    seq![
        "Pacific Shield survived its first year. Now it's time to grow."@,
        ""@,
        "Your underwriting team has found a neighborhood of similar homes,"@,
        "all needing coverage. Same perils, same construction, same values."@,
        ""@,
        "Your task: price the book and decide how many policies to write."@,
        ""@,
        "More policies means more premium income \u{2014} but also more exposure."@,
        "The question is: does scale make you safer or more vulnerable?"@,
        ""@,
        "(Hint: this is the most important lesson in insurance.)"@,
    ]
}

/// The hints of chapter 2, revealed one at a time.
pub open spec fn hint_text() -> Seq<Seq<char>> {
    seq![
        "Think about what happens to the average outcome when you\nflip a coin 10 times vs. 10,000 times."@,
        "The Law of Large Numbers says the average of many independent\nevents converges to the expected value. More policies = more\npredictable results."@,
        "With 1 policy, your loss ratio swings between 0% and 2000%+.\nWith 500 policies, it clusters tightly around the expected\nloss ratio."@,
        "The ideal premium is the same as Chapter 1. The magic of\nLLN is that with enough policies, you can RELY on that\nexpected value."@,
    ]
}

/// The set-up of chapter 2: the homes of chapter 1, now a whole book of
/// them, simulated over five years.
pub open spec fn is_config(c: ScenarioConfig) -> bool {
    &&& c.chapter == 2
    &&& c.title@ == "Growing the Book"@
    &&& c.subtitle@ == "Law of Large Numbers"@
    &&& text_lines(c.brief@) == brief_text()
    &&& home_perils(c.perils@)
    &&& c.property_value_cents == 25_000_000
    &&& c.expense_ratio_bp == 3000
    &&& c.num_years == 5
    &&& text_lines(c.hints@) == hint_text()
    &&& c.max_market_premium_cents == 800_000
}

/// The scenario of chapter 2.
pub fn config() -> (c: ScenarioConfig)
    ensures
        is_config(c),
{
    let mut brief: Vec<&'static str> = Vec::new();
    brief.push("Pacific Shield survived its first year. Now it's time to grow.");
    brief.push("");
    brief.push("Your underwriting team has found a neighborhood of similar homes,");
    brief.push("all needing coverage. Same perils, same construction, same values.");
    brief.push("");
    brief.push("Your task: price the book and decide how many policies to write.");
    brief.push("");
    brief.push("More policies means more premium income \u{2014} but also more exposure.");
    brief.push("The question is: does scale make you safer or more vulnerable?");
    brief.push("");
    brief.push("(Hint: this is the most important lesson in insurance.)");
    let mut hints: Vec<&'static str> = Vec::new();
    hints.push("Think about what happens to the average outcome when you\nflip a coin 10 times vs. 10,000 times.");
    hints.push("The Law of Large Numbers says the average of many independent\nevents converges to the expected value. More policies = more\npredictable results.");
    hints.push("With 1 policy, your loss ratio swings between 0% and 2000%+.\nWith 500 policies, it clusters tightly around the expected\nloss ratio.");
    hints.push("The ideal premium is the same as Chapter 1. The magic of\nLLN is that with enough policies, you can RELY on that\nexpected value.");
    let c = ScenarioConfig {
        chapter: 2,
        title: "Growing the Book",
        subtitle: "Law of Large Numbers",
        brief,
        perils: home_peril_list(),
        property_value_cents: 25_000_000,
        expense_ratio_bp: 3000,
        num_years: 5,
        hints,
        max_market_premium_cents: 800_000,
    };
    assert(text_lines(c.brief@) =~= brief_text());
    assert(text_lines(c.hints@) =~= hint_text());
    c
}

/// The messages that chapter 2 can give, each named after what it says.
#[derive(Clone, Copy, PartialEq, Eq, Structural, Debug)]
pub enum Note {
    /// The number of policies and of simulated years.
    BookSize,
    /// Average, expected and spread of the loss ratio.
    LossRatios,
    /// The premium is below the break-even gross premium.
    BelowBreakEven,
    /// The company went insolvent.
    Insolvent,
    /// The surplus at the end of the simulation.
    FinalSurplus,
    /// An empty line.
    Blank,
    /// A large book makes results track expected values.
    LargeBook,
    /// The spread of the loss ratio shows how predictable a large book is.
    Predictable,
    /// With few policies results are volatile.
    SmallBook,
    /// The lesson of the chapter.
    Takeaway,
}

/// What the simulation of chapter 2 showed, as far as its rules ask.
#[derive(Clone, Copy)]
pub struct Outcome {
    /// The premium is below the gross premium (expected losses plus expenses).
    pub below_gross_premium: bool,
    /// The surplus fell below zero in some year.
    pub went_insolvent: bool,
    /// The number of policies in the book.
    pub num_policies: u32,
    /// The standard deviation of the yearly loss ratios is below 10%.
    pub low_spread: bool,
}

/// The book counts as large from 100 policies on.
pub open spec fn large_book(o: Outcome) -> bool {
    o.num_policies >= 100
}

/// The feedback lines of chapter 2 for an outcome.
pub open spec fn feedback_lines(o: Outcome) -> Seq<(FeedbackKind, Note)> {
    let head = seq![(FeedbackKind::Info, Note::BookSize), (FeedbackKind::Info, Note::LossRatios)];
    let priced = if o.below_gross_premium {
        head.push((FeedbackKind::Bad, Note::BelowBreakEven))
    } else {
        head
    };
    let solvency = if o.went_insolvent {
        (FeedbackKind::Bad, Note::Insolvent)
    } else {
        (FeedbackKind::Good, Note::FinalSurplus)
    };
    let middle = priced.push(solvency).push((FeedbackKind::Info, Note::Blank));
    let book = if large_book(o) {
        if o.low_spread {
            middle.push((FeedbackKind::Good, Note::LargeBook)).push((FeedbackKind::Good, Note::Predictable))
        } else {
            middle.push((FeedbackKind::Good, Note::LargeBook))
        }
    } else {
        middle.push((FeedbackKind::Warning, Note::SmallBook))
    };
    book.push((FeedbackKind::Info, Note::Blank)).push((FeedbackKind::Info, Note::Takeaway))
}

/// Chapter 2 is passed when the premium covers the gross premium and the
/// company stays solvent; the size of the book does not decide it.
pub open spec fn passes(o: Outcome) -> bool {
    !o.below_gross_premium && !o.went_insolvent
}

/// A premium below the gross premium never passes chapter 2, however
/// large the book.
pub proof fn lemma_underpricing_fails(o: Outcome)
    requires
        o.below_gross_premium,
    ensures
        !passes(o),
{
}

/// Whether chapter 2 is passed does not depend on the size of the book;
/// the size only changes what the feedback says about volatility.
pub proof fn lemma_book_size_does_not_decide(o: Outcome, num_policies: u32)
    ensures
        passes(o) == passes(Outcome { num_policies, ..o }),
{
}

/// Chapter 2 is passed exactly when the premium covers the gross premium
/// and the company stays solvent: the spread of the loss ratios and the size
/// of the book play no part.
pub proof fn lemma_price_and_solvency_decide(o: Outcome)
    ensures
        passes(o) <==> (!o.below_gross_premium && !o.went_insolvent),
{
}

/// What the feedback of chapter 2 says: it opens with the book size and the
/// loss ratios and closes with the lesson; it warns of a premium below
/// break-even exactly when there is one; it reports insolvency when the
/// company went insolvent and the final surplus otherwise; it praises a
/// large book (100 policies or more) and, for a large book with a low
/// spread, its predictability, and warns of a small book otherwise.
pub proof fn lemma_feedback_notes(o: Outcome)
    ensures
        feedback_lines(o)[0] == (FeedbackKind::Info, Note::BookSize),
        feedback_lines(o)[1] == (FeedbackKind::Info, Note::LossRatios),
        feedback_lines(o).last() == (FeedbackKind::Info, Note::Takeaway),
        feedback_lines(o).contains((FeedbackKind::Bad, Note::BelowBreakEven)) <==> o.below_gross_premium,
        feedback_lines(o).contains((FeedbackKind::Bad, Note::Insolvent)) <==> o.went_insolvent,
        feedback_lines(o).contains((FeedbackKind::Good, Note::FinalSurplus)) <==> !o.went_insolvent,
        feedback_lines(o).contains((FeedbackKind::Good, Note::LargeBook)) <==> o.num_policies >= 100,
        feedback_lines(o).contains((FeedbackKind::Good, Note::Predictable)) <==> (o.num_policies >= 100
            && o.low_spread),
        feedback_lines(o).contains((FeedbackKind::Warning, Note::SmallBook)) <==> o.num_policies < 100,
{
    let s = feedback_lines(o);
    let gross = (FeedbackKind::Bad, Note::BelowBreakEven);
    let solvency = if o.went_insolvent {
        (FeedbackKind::Bad, Note::Insolvent)
    } else {
        (FeedbackKind::Good, Note::FinalSurplus)
    };
    let head = seq![(FeedbackKind::Info, Note::BookSize), (FeedbackKind::Info, Note::LossRatios)];
    let priced = if o.below_gross_premium { head.push(gross) } else { head };
    let book: Seq<(FeedbackKind, Note)> = if o.num_policies >= 100 {
        if o.low_spread {
            seq![(FeedbackKind::Good, Note::LargeBook), (FeedbackKind::Good, Note::Predictable)]
        } else {
            seq![(FeedbackKind::Good, Note::LargeBook)]
        }
    } else {
        seq![(FeedbackKind::Warning, Note::SmallBook)]
    };
    let tail = seq![(FeedbackKind::Info, Note::Blank), (FeedbackKind::Info, Note::Takeaway)];
    assert(s =~= priced + seq![solvency, (FeedbackKind::Info, Note::Blank)] + book + tail);
    let p = priced.len() as int;
    if o.below_gross_premium {
        assert(s[2] == gross);
    }
    if o.went_insolvent {
        assert(s[p] == (FeedbackKind::Bad, Note::Insolvent));
    } else {
        assert(s[p] == (FeedbackKind::Good, Note::FinalSurplus));
    }
    if o.num_policies >= 100 {
        assert(s[p + 2] == (FeedbackKind::Good, Note::LargeBook));
        if o.low_spread {
            assert(s[p + 3] == (FeedbackKind::Good, Note::Predictable));
        }
    } else {
        assert(s[p + 2] == (FeedbackKind::Warning, Note::SmallBook));
    }
}

/// The rules of chapter 2 applied to what its simulation showed.
pub fn assess(o: &Outcome) -> (a: Assessment<Note>)
    ensures
        a.notes@ == feedback_lines(*o),
        a.passed == passes(*o),
        a.passed == (!o.below_gross_premium && !o.went_insolvent),
        a.notes@.contains((FeedbackKind::Bad, Note::BelowBreakEven)) <==> o.below_gross_premium,
        a.notes@.contains((FeedbackKind::Bad, Note::Insolvent)) <==> o.went_insolvent,
        a.notes@.contains((FeedbackKind::Good, Note::LargeBook)) <==> o.num_policies >= 100,
        a.notes@.contains((FeedbackKind::Good, Note::Predictable)) <==> (o.num_policies >= 100 && o.low_spread),
        a.notes@.contains((FeedbackKind::Warning, Note::SmallBook)) <==> o.num_policies < 100,
{
    proof {
        lemma_feedback_notes(*o);
    }
    let mut notes: Vec<(FeedbackKind, Note)> = Vec::new();
    notes.push((FeedbackKind::Info, Note::BookSize));
    notes.push((FeedbackKind::Info, Note::LossRatios));
    let mut passed = true;
    if o.below_gross_premium {
        notes.push((FeedbackKind::Bad, Note::BelowBreakEven));
        passed = false;
    }
    if o.went_insolvent {
        notes.push((FeedbackKind::Bad, Note::Insolvent));
        passed = false;
    } else {
        notes.push((FeedbackKind::Good, Note::FinalSurplus));
    }
    notes.push((FeedbackKind::Info, Note::Blank));
    if o.num_policies >= 100 {
        notes.push((FeedbackKind::Good, Note::LargeBook));
        if o.low_spread {
            notes.push((FeedbackKind::Good, Note::Predictable));
        }
    } else {
        notes.push((FeedbackKind::Warning, Note::SmallBook));
    }
    notes.push((FeedbackKind::Info, Note::Blank));
    notes.push((FeedbackKind::Info, Note::Takeaway));
    assert(notes@ =~= feedback_lines(*o));
    Assessment { notes, passed }
}

} // verus!
