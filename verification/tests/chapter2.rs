use actuary::scenarios::chapter2;
use actuary::scenarios::chapter2::Note;
use actuary::scenarios::FeedbackKind::{Bad, Good, Info, Warning};

fn ch2(below_gross: bool, insolvent: bool, n: u32, low_spread: bool) -> chapter2::Outcome {
    chapter2::Outcome { below_gross_premium: below_gross, went_insolvent: insolvent, num_policies: n, low_spread }
}

#[test]
fn chapter2_large_predictable_book_passes() {
    let a = chapter2::assess(&ch2(false, false, 500, true));
    assert!(a.passed);
    assert_eq!(
        a.notes,
        vec![
            (Info, Note::BookSize),
            (Info, Note::LossRatios),
            (Good, Note::FinalSurplus),
            (Info, Note::Blank),
            (Good, Note::LargeBook),
            (Good, Note::Predictable),
            (Info, Note::Blank),
            (Info, Note::Takeaway)
        ]
    );
}

#[test]
fn chapter2_small_book_still_passes() {
    let a = chapter2::assess(&ch2(false, false, 99, true));
    assert!(a.passed);
    assert_eq!(a.notes[4], (Warning, Note::SmallBook));
    assert_eq!(a.notes.len(), 7);
    let b = chapter2::assess(&ch2(false, false, 100, false));
    assert_eq!(b.notes[4], (Good, Note::LargeBook));
    assert_eq!(b.notes.len(), 7);
}

#[test]
fn chapter2_underpriced_or_insolvent_fails() {
    let a = chapter2::assess(&ch2(true, true, 1, false));
    assert!(!a.passed);
    assert_eq!(a.notes[2], (Bad, Note::BelowBreakEven));
    assert_eq!(a.notes[3], (Bad, Note::Insolvent));
    let b = chapter2::assess(&ch2(false, true, 1000, true));
    assert!(!b.passed);
    let c = chapter2::assess(&ch2(true, false, 1000, true));
    assert!(!c.passed);
}
