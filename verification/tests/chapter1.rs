use actuary::scenarios::chapter1;
use actuary::scenarios::chapter1::Note;
use actuary::scenarios::FeedbackKind;
use actuary::scenarios::FeedbackKind::{Bad, Good, Info, Warning};

fn ch1(
    below_pure: bool,
    below_gross: bool,
    above_market: bool,
    tolerance: bool,
    insolvent: bool,
    volatile: bool,
) -> chapter1::Outcome {
    chapter1::Outcome {
        below_pure_premium: below_pure,
        below_gross_premium: below_gross,
        above_market,
        within_market_tolerance: tolerance,
        went_insolvent: insolvent,
        had_volatile_year: volatile,
    }
}

#[test]
fn chapter1_well_priced_passes() {
    let a = chapter1::assess(&ch1(false, false, false, true, false, false));
    assert!(a.passed);
    assert_eq!(
        a.notes,
        vec![(Info, Note::Totals), (Info, Note::NetIncome), (Good, Note::WellPriced), (Info, Note::FinalSurplus), (Info, Note::Blank), (Info, Note::Takeaway)]
    );
}

#[test]
fn chapter1_below_pure_premium_fails() {
    let a = chapter1::assess(&ch1(true, true, false, true, true, true));
    assert!(!a.passed);
    assert_eq!(
        a.notes,
        vec![
            (Info, Note::Totals),
            (Info, Note::NetIncome),
            (Bad, Note::BelowPure),
            (Bad, Note::Insolvent),
            (Info, Note::Blank),
            (Info, Note::Takeaway),
            (Info, Note::Volatility)
        ]
    );
}

#[test]
fn chapter1_below_gross_premium_fails() {
    let a = chapter1::assess(&ch1(false, true, false, true, false, false));
    assert!(!a.passed);
    assert_eq!(a.notes[2], (FeedbackKind::Warning, Note::BelowGross));
}

#[test]
fn chapter1_above_market_passes_only_within_tolerance() {
    let a = chapter1::assess(&ch1(false, false, true, true, false, false));
    assert!(a.passed);
    assert_eq!(a.notes[2], (FeedbackKind::Warning, Note::AboveMarket));
    let b = chapter1::assess(&ch1(false, false, true, false, false, false));
    assert!(!b.passed);
    assert_eq!(b.notes[2], (FeedbackKind::Warning, Note::AboveMarket));
}

#[test]
fn chapter1_insolvency_alone_does_not_fail() {
    let a = chapter1::assess(&ch1(false, false, false, false, true, false));
    assert!(a.passed);
    assert_eq!(a.notes[3], (FeedbackKind::Bad, Note::Insolvent));
}

