//! What the screens show, as far as it is decided rather than drawn: how
//! money is written, how each chapter is marked on the menu, the lines of
//! the hint window and the marks of the feedback.

use vstd::prelude::*;
use crate::app::App;
use crate::number::{decimal_value, digit_value, is_digit, u32_from_text, unsigned_digits};
use crate::progress::Progress;
use crate::scenarios::{get_scenario, has_scenario, FeedbackKind};

verus! {

/// The character of the decimal digit `d` (below 10).
pub open spec fn digit_char(d: nat) -> char {
    ('0' as int + d) as char
}

/// The decimal digits of `n`, most significant first, without leading
/// zeros ("0" for zero).
pub open spec fn decimal_digits(n: nat) -> Seq<char>
    decreases n,
{
    if n < 10 {
        seq![digit_char(n)]
    } else {
        decimal_digits(n / 10).push(digit_char(n % 10))
    }
}

/// The first `i` characters of `ds` with a comma before each character
/// (but the first) that starts a group of three counted from the right.
pub open spec fn grouped_prefix(ds: Seq<char>, i: int) -> Seq<char>
    decreases i,
{
    if i <= 0 {
        Seq::empty()
    } else {
        let j = i - 1;
        let sep: Seq<char> = if j > 0 && (ds.len() - j) % 3 == 0 {
            seq![',']
        } else {
            Seq::empty()
        };
        grouped_prefix(ds, j) + sep + seq![ds[j]]
    }
}

/// The digits `ds` with commas between groups of three, counted from the
/// right: "1234567" becomes "1,234,567".
pub open spec fn with_separators(ds: Seq<char>) -> Seq<char> {
    grouped_prefix(ds, ds.len() as int)
}

/// A whole amount of dollars as the screens write it: a dollar sign, then
/// the digits in groups of three, after a minus sign for a negative amount
/// and, when `plus` is set, after a plus sign for any other.
pub open spec fn money_text(negative: bool, plus: bool, dollars: u64) -> Seq<char> {
    let sign: Seq<char> = if negative {
        "-$"@
    } else if plus {
        "+$"@
    } else {
        "$"@
    };
    sign + with_separators(decimal_digits(dollars as nat))
}

proof fn lemma_digit_char(d: nat)
    requires
        d < 10,
    ensures
        is_digit(digit_char(d)),
        digit_value(digit_char(d)) == d,
        digit_char(d) != ',',
{
    assert(('0' as int + d) as char as int == '0' as int + d);
}

/// The digits written for `n` are decimal digits and spell `n` back.
pub proof fn lemma_digits_spell_the_number(n: nat)
    ensures
        decimal_digits(n).len() >= 1,
        forall|i: int| 0 <= i < decimal_digits(n).len() ==> is_digit(#[trigger] decimal_digits(n)[i]),
        decimal_value(decimal_digits(n)) == n,
    decreases n,
{
    if n < 10 {
        lemma_digit_char(n);
        let s = decimal_digits(n);
        assert(s.drop_last() =~= Seq::<char>::empty());
        assert(decimal_value(s.drop_last()) == 0);
        assert(s.last() == digit_char(n));
    } else {
        lemma_digits_spell_the_number(n / 10);
        lemma_digit_char(n % 10);
        let s = decimal_digits(n);
        assert(s.drop_last() =~= decimal_digits(n / 10));
        assert(s.last() == digit_char(n % 10));
        assert(decimal_value(s) == (n / 10) * 10 + n % 10);
        assert forall|i: int| 0 <= i < s.len() implies is_digit(#[trigger] s[i]) by {
            if i < s.len() - 1 {
                assert(s[i] == decimal_digits(n / 10)[i]);
            }
        }
    }
}

/// A number written out is read back as itself by the policy-count parser:
/// writing and reading agree.
pub proof fn lemma_written_numbers_read_back(n: u32)
    ensures
        u32_from_text(decimal_digits(n as nat)) == Some(n),
{
    lemma_digits_spell_the_number(n as nat);
    let s = decimal_digits(n as nat);
    assert(is_digit(s[0]));
    assert(unsigned_digits(s) == s);
}

/// The text without its commas.
pub open spec fn without_commas(s: Seq<char>) -> Seq<char>
    decreases s.len(),
{
    if s.len() == 0 {
        s
    } else if s.last() == ',' {
        without_commas(s.drop_last())
    } else {
        without_commas(s.drop_last()).push(s.last())
    }
}

proof fn lemma_without_commas_append(a: Seq<char>, b: Seq<char>)
    ensures
        without_commas(a + b) == without_commas(a) + without_commas(b),
    decreases b.len(),
{
    if b.len() == 0 {
        assert(a + b =~= a);
        assert(without_commas(a) + without_commas(b) =~= without_commas(a));
    } else {
        assert((a + b).drop_last() =~= a + b.drop_last());
        lemma_without_commas_append(a, b.drop_last());
        if b.last() != ',' {
            assert(without_commas(a) + without_commas(b.drop_last()).push(b.last()) =~= (without_commas(a)
                + without_commas(b.drop_last())).push(b.last()));
        }
    }
}

proof fn lemma_grouping_keeps_digits(ds: Seq<char>, i: int)
    requires
        0 <= i <= ds.len(),
        forall|j: int| 0 <= j < ds.len() ==> #[trigger] ds[j] != ',',
    ensures
        without_commas(grouped_prefix(ds, i)) == ds.take(i),
    decreases i,
{
    if i > 0 {
        let j = i - 1;
        lemma_grouping_keeps_digits(ds, j);
        let sep: Seq<char> = if j > 0 && (ds.len() - j) % 3 == 0 {
            seq![',']
        } else {
            Seq::empty()
        };
        lemma_without_commas_append(grouped_prefix(ds, j), sep);
        lemma_without_commas_append(grouped_prefix(ds, j) + sep, seq![ds[j]]);
        if sep.len() > 0 {
            assert(sep.drop_last() =~= Seq::<char>::empty());
            assert(without_commas(sep.drop_last()) =~= Seq::<char>::empty());
        }
        assert(without_commas(sep) =~= Seq::<char>::empty());
        assert(seq![ds[j]].drop_last() =~= Seq::<char>::empty());
        assert(ds.take(i) =~= ds.take(j).push(ds[j]));
        assert(without_commas(grouped_prefix(ds, j)) + without_commas(sep) =~= ds.take(j));
    }
}

/// The amount a money text shows is the amount asked for: after its sign
/// and dollar sign, the text without its commas spells the number of
/// dollars.
pub proof fn lemma_money_text_spells_the_amount(negative: bool, plus: bool, dollars: u64)
    ensures
        ({
            let t = money_text(negative, plus, dollars);
            let sign_len: int = if negative || plus { 2 } else { 1 };
            &&& t[sign_len - 1] == '$'
            &&& (negative ==> t[0] == '-')
            &&& (!negative && plus ==> t[0] == '+')
            &&& decimal_value(without_commas(t.skip(sign_len))) == dollars
        }),
{
    let ds = decimal_digits(dollars as nat);
    lemma_digits_spell_the_number(dollars as nat);
    assert forall|j: int| 0 <= j < ds.len() implies #[trigger] ds[j] != ',' by {
        assert(is_digit(ds[j]));
    }
    lemma_grouping_keeps_digits(ds, ds.len() as int);
    assert(ds.take(ds.len() as int) =~= ds);
    let t = money_text(negative, plus, dollars);
    let sign_len: int = if negative || plus { 2 } else { 1 };
    reveal_strlit("-$");
    reveal_strlit("+$");
    reveal_strlit("$");
    assert(t.skip(sign_len) =~= with_separators(ds));
}

fn digit_of(d: u64) -> (c: char)
    requires
        d < 10,
    ensures
        c == digit_char(d as nat),
{
    let b: u8 = 48 + (d as u8);
    b as char
}

/// The decimal digits of `n`, most significant first.
fn digits(n: u64) -> (ds: Vec<char>)
    ensures
        ds@ == decimal_digits(n as nat),
{
    let mut m = n;
    let mut ds: Vec<char> = Vec::new();
    loop
        invariant_except_break
            decimal_digits(n as nat) == decimal_digits(m as nat) + ds@,
        ensures
            decimal_digits(n as nat) == ds@,
        decreases m,
    {
        let c = digit_of(m % 10);
        let ghost before = ds@;
        ds.insert(0, c);
        if m < 10 {
            assert(ds@ =~= seq![c] + before);
            break;
        }
        assert(decimal_digits(m as nat) == decimal_digits((m / 10) as nat).push(c));
        assert(decimal_digits((m / 10) as nat).push(c) + before =~= decimal_digits((m / 10) as nat) + ds@);
        m = m / 10;
    }
    ds
}

fn amount_text(sign: &str, dollars: u64) -> (s: String)
    ensures
        s@ == sign@ + with_separators(decimal_digits(dollars as nat)),
{
    let ds = digits(dollars);
    let n = ds.len();
    let mut s = String::from_str(sign);
    let mut i: usize = 0;
    while i < n
        invariant
            n == ds@.len(),
            i <= n,
            s@ == sign@ + grouped_prefix(ds@, i as int),
        decreases n - i,
    {
        let ghost before = s@;
        if i > 0 && (n - i) % 3 == 0 {
            s.push(',');
        }
        s.push(ds[i]);
        assert(s@ =~= sign@ + grouped_prefix(ds@, i + 1));
        i = i + 1;
    }
    s
}

/// Writes a whole amount of dollars, negative when `negative` is set:
/// "$1,234" or "-$1,234".
pub fn fmt_money(negative: bool, dollars: u64) -> (s: String)
    ensures
        s@ == money_text(negative, false, dollars),
{
    if negative {
        amount_text("-$", dollars)
    } else {
        amount_text("$", dollars)
    }
}

/// Writes a whole change in dollars, negative when `negative` is set, with
/// its sign either way: "+$1,234" or "-$1,234".
pub fn fmt_money_signed(negative: bool, dollars: u64) -> (s: String)
    ensures
        s@ == money_text(negative, true, dollars),
{
    if negative {
        amount_text("-$", dollars)
    } else {
        amount_text("+$", dollars)
    }
}

/// The pieces of `s` between newlines, as `str::split('\n')` gives them:
/// a text without newline is one piece, and each newline starts a new one.
pub open spec fn split_lines(s: Seq<char>) -> Seq<Seq<char>>
    decreases s.len(),
{
    if s.len() == 0 {
        seq![Seq::empty()]
    } else {
        let pieces = split_lines(s.drop_last());
        if s.last() == '\n' {
            pieces.push(Seq::empty())
        } else {
            pieces.update(pieces.len() - 1, pieces.last().push(s.last()))
        }
    }
}

/// How a line of the hint window is written.
#[derive(Clone, Copy, PartialEq, Eq, Structural, Debug)]
pub enum HintLineKind {
    /// "Hint n:", highlighted.
    Heading,
    /// A line of a hint, indented.
    Text,
    /// An empty line after each hint.
    Blank,
    /// The closing line, dimmed.
    Footer,
}

/// The lines of one revealed hint: its heading with the hint's number, its
/// pieces between newlines each indented by two spaces, and an empty line.
pub open spec fn hint_block(number: nat, hint: Seq<char>) -> Seq<(HintLineKind, Seq<char>)> {
    seq![(HintLineKind::Heading, "Hint "@ + decimal_digits(number) + ":"@)]
        + split_lines(hint).map_values(|l: Seq<char>| (HintLineKind::Text, "  "@ + l))
        + seq![(HintLineKind::Blank, Seq::<char>::empty())]
}

/// The blocks of the first `i` hints.
pub open spec fn hint_blocks(hints: Seq<Seq<char>>, i: int) -> Seq<(HintLineKind, Seq<char>)>
    decreases i,
{
    if i <= 0 {
        Seq::empty()
    } else {
        hint_blocks(hints, i - 1) + hint_block(i as nat, hints[i - 1])
    }
}

/// The closing line of the hint window: how many hints are left, or that
/// all are revealed.
pub open spec fn hint_footer(count: nat, revealed: nat) -> Seq<char> {
    if revealed < count {
        "Press h to reveal next hint ("@ + decimal_digits((count - revealed) as nat) + "/"@
            + decimal_digits(count) + " remaining)"@
    } else {
        "All hints revealed."@
    }
}

/// The lines of the hint window when `revealed` of `hints` are revealed.
pub open spec fn hint_window(hints: Seq<Seq<char>>, revealed: nat) -> Seq<(HintLineKind, Seq<char>)> {
    let shown = if revealed < hints.len() { revealed as int } else { hints.len() as int };
    hint_blocks(hints, shown).push((HintLineKind::Footer, hint_footer(hints.len(), revealed)))
}

/// The view of a list of written lines.
pub open spec fn line_views(v: Seq<(HintLineKind, String)>) -> Seq<(HintLineKind, Seq<char>)> {
    v.map_values(|l: (HintLineKind, String)| (l.0, l.1@))
}

fn number_text(n: u64) -> (s: String)
    ensures
        s@ == decimal_digits(n as nat),
{
    let ds = digits(n);
    let mut s = String::new();
    let len = ds.len();
    let mut i: usize = 0;
    while i < len
        invariant
            len == ds@.len(),
            i <= len,
            s@ == ds@.take(i as int),
        decreases len - i,
    {
        s.push(ds[i]);
        assert(s@ =~= ds@.take(i + 1));
        i = i + 1;
    }
    assert(ds@.take(len as int) =~= ds@);
    s
}

/// Appends the lines of one hint to `out`.
fn push_hint_block(out: &mut Vec<(HintLineKind, String)>, number: u64, hint: &str)
    ensures
        line_views(final(out)@) == line_views(old(out)@) + hint_block(number as nat, hint@),
{
    let ghost start = line_views(out@);
    let mut heading = String::from_str("Hint ");
    heading.append(number_text(number).as_str());
    heading.append(":");
    out.push((HintLineKind::Heading, heading));
    let ghost head = seq![(HintLineKind::Heading, "Hint "@ + decimal_digits(number as nat) + ":"@)];
    assert(line_views(out@) =~= start + head);

    let n = hint.unicode_len();
    let ghost text = hint@;
    let mut pieces: Vec<String> = Vec::new();
    let mut current = String::new();
    let mut i: usize = 0;
    while i < n
        invariant
            n == text.len(),
            text == hint@,
            i <= n,
            pieces@.map_values(|p: String| p@).push(current@) == split_lines(text.take(i as int)),
        decreases n - i,
    {
        let c = hint.get_char(i);
        let ghost before_pieces = pieces@.map_values(|p: String| p@);
        let ghost before_current = current@;
        assert(text.take(i + 1).drop_last() =~= text.take(i as int));
        assert(text.take(i + 1).last() == c);
        if c == '\n' {
            let done = current;
            pieces.push(done);
            current = String::new();
            assert(pieces@.map_values(|p: String| p@) =~= before_pieces.push(before_current));
            assert(pieces@.map_values(|p: String| p@).push(current@) =~= split_lines(text.take(i + 1)));
        } else {
            current.push(c);
            assert(pieces@.map_values(|p: String| p@).push(current@) =~= split_lines(text.take(i + 1)));
        }
        i = i + 1;
    }
    pieces.push(current);
    assert(text.take(n as int) =~= text);
    let ghost split = split_lines(text);
    assert(pieces@.map_values(|p: String| p@) =~= split);

    let m = pieces.len();
    let mut k: usize = 0;
    while k < m
        invariant
            m == pieces@.len(),
            k <= m,
            pieces@.map_values(|p: String| p@) == split,
            line_views(out@) == start + head + split.take(k as int).map_values(
                |l: Seq<char>| (HintLineKind::Text, "  "@ + l),
            ),
        decreases m - k,
    {
        let mut line = String::from_str("  ");
        line.append(pieces[k].as_str());
        let ghost prev = line_views(out@);
        out.push((HintLineKind::Text, line));
        assert(split[k as int] == pieces@[k as int]@);
        assert(split.take(k + 1).map_values(|l: Seq<char>| (HintLineKind::Text, "  "@ + l)) =~= split.take(
            k as int,
        ).map_values(|l: Seq<char>| (HintLineKind::Text, "  "@ + l)).push((HintLineKind::Text, "  "@ + split[k as int])));
        assert(line_views(out@) =~= prev.push((HintLineKind::Text, "  "@ + split[k as int])));
        k = k + 1;
    }
    assert(split.take(m as int) =~= split);
    let ghost before_blank = line_views(out@);
    out.push((HintLineKind::Blank, String::new()));
    assert(line_views(out@) =~= before_blank.push((HintLineKind::Blank, Seq::<char>::empty())));
    assert(line_views(out@) =~= line_views(old(out)@) + hint_block(number as nat, hint@));
}

/// The lines of the hint window: each revealed hint under its numbered
/// heading, split at its newlines, then a line saying how many hints are
/// left.
pub fn hint_lines(hints: &Vec<&'static str>, revealed: usize) -> (v: Vec<(HintLineKind, String)>)
    ensures
        line_views(v@) == hint_window(hints@.map_values(|h: &'static str| h@), revealed as nat),
{
    let ghost views = hints@.map_values(|h: &'static str| h@);
    let count = hints.len();
    let shown = if revealed < count { revealed } else { count };
    let mut v: Vec<(HintLineKind, String)> = Vec::new();
    let mut i: usize = 0;
    while i < shown
        invariant
            shown <= count,
            count == hints@.len(),
            views == hints@.map_values(|h: &'static str| h@),
            i <= shown,
            line_views(v@) == hint_blocks(views, i as int),
        decreases shown - i,
    {
        push_hint_block(&mut v, (i + 1) as u64, hints[i]);
        assert(views[i as int] == hints@[i as int]@);
        i = i + 1;
    }
    let footer = if revealed < count {
        let mut f = String::from_str("Press h to reveal next hint (");
        f.append(number_text((count - revealed) as u64).as_str());
        f.append("/");
        f.append(number_text(count as u64).as_str());
        f.append(" remaining)");
        f
    } else {
        String::from_str("All hints revealed.")
    };
    let ghost before = line_views(v@);
    v.push((HintLineKind::Footer, footer));
    assert(line_views(v@) =~= before.push((HintLineKind::Footer, hint_footer(views.len(), revealed as nat))));
    v
}

/// The mark in front of a feedback line of the given kind.
pub fn feedback_prefix(kind: FeedbackKind) -> (s: &'static str)
    ensures
        s@ == match kind {
            FeedbackKind::Good => "\u{2713} "@,
            FeedbackKind::Warning => "\u{26a0} "@,
            FeedbackKind::Bad => "\u{2717} "@,
            FeedbackKind::Info => "  "@,
        },
{
    match kind {
        FeedbackKind::Good => "\u{2713} ",
        FeedbackKind::Warning => "\u{26a0} ",
        FeedbackKind::Bad => "\u{2717} ",
        FeedbackKind::Info => "  ",
    }
}

/// The line closing the feedback: how to go on after a pass, or how to retry.
pub fn closing_line(passed: bool) -> (s: &'static str)
    ensures
        s@ == if passed {
            "\n  Chapter complete! Press Enter to continue."@
        } else {
            "\n  Not quite. Press r to retry or Enter to return to menu."@
        },
{
    if passed {
        "\n  Chapter complete! Press Enter to continue."
    } else {
        "\n  Not quite. Press r to retry or Enter to return to menu."
    }
}

/// What the input screen shows of the inputs.
pub struct InputScreen {
    /// The premium is the field being typed into.
    pub premium_focused: bool,
    /// The premium box shows its placeholder, dimmed.
    pub premium_placeholder: bool,
    /// The text of the premium box.
    pub premium_text: String,
    /// Where the cursor stands in the premium as typed, in bytes, when the
    /// premium is being typed into.
    pub premium_cursor: Option<usize>,
    /// The policy-count box is shown (chapter 2 only).
    pub count_shown: bool,
    /// The policy count is the field being typed into.
    pub count_focused: bool,
    /// Where the cursor stands in the policy count as typed, in bytes, when
    /// the policy count is shown and being typed into.
    pub count_cursor: Option<usize>,
}

/// The length in bytes of a text once written out.
pub open spec fn byte_len(s: Seq<char>) -> nat {
    vstd::utf8::encode_utf8(s).len()
}

/// What the input screen shows: the premium box with the premium after a
/// dollar sign, or a placeholder while it is empty and being typed into; the
/// policy-count box in chapter 2; and the cursor at the end of the field
/// being typed into.
pub fn input_screen(app: &App) -> (r: InputScreen)
    ensures
        r.premium_focused == (app.input_field == 0),
        r.premium_placeholder == (app.premium_input@.len() == 0 && app.input_field == 0),
        r.premium_text@ == if r.premium_placeholder {
            "enter amount..."@
        } else {
            "$ "@ + app.premium_input@
        },
        r.premium_cursor == if app.input_field == 0 {
            Some(byte_len(app.premium_input@) as usize)
        } else {
            None::<usize>
        },
        r.count_shown == (app.chapter() == 2),
        r.count_focused == (app.input_field == 1),
        r.count_cursor == if app.chapter() == 2 && app.input_field == 1 {
            Some(byte_len(app.policy_count_input@) as usize)
        } else {
            None::<usize>
        },
{
    let premium_focused = app.input_field == 0;
    let premium_placeholder = app.premium_input.as_str().is_empty() && premium_focused;
    let premium_text = if premium_placeholder {
        String::from_str("enter amount...")
    } else {
        let mut t = String::from_str("$ ");
        t.append(app.premium_input.as_str());
        t
    };
    let premium_cursor = if premium_focused {
        Some(app.premium_input.as_str().len())
    } else {
        None
    };
    let count_shown = app.active_chapter() == 2;
    let count_focused = app.input_field == 1;
    let count_cursor = if count_shown && count_focused {
        Some(app.policy_count_input.as_str().len())
    } else {
        None
    };
    InputScreen {
        premium_focused,
        premium_placeholder,
        premium_text,
        premium_cursor,
        count_shown,
        count_focused,
        count_cursor,
    }
}

/// How many simulated years the simulation screen lists: those revealed so
/// far, and no more than have been simulated.
pub fn visible_years(current_year: u32, simulated: usize) -> (n: usize)
    ensures
        n == if current_year < simulated { current_year as int } else { simulated as int },
{
    let revealed = current_year as usize;
    if revealed < simulated {
        revealed
    } else {
        simulated
    }
}

/// How a chapter is marked on the menu.
#[derive(Clone, Copy, PartialEq, Eq, Structural, Debug)]
pub enum ChapterMark {
    /// Completed (a tick).
    Completed,
    /// Unlocked and playable (an open circle).
    Open,
    /// Unlocked but not playable yet (a dash).
    Unplayable,
    /// Locked (a padlock).
    Locked,
}

/// How a chapter's entry on the menu is written.
#[derive(Clone, Copy, PartialEq, Eq, Structural, Debug)]
pub enum EntryStyle {
    /// The selected entry, in bold.
    Selected,
    /// A locked or unplayable entry, dimmed.
    Dimmed,
    /// Any other entry.
    Plain,
}

/// The mark of `chapter` on the menu: completed first, then unlocked and
/// playable, then unlocked, else locked.
pub open spec fn mark_of(progress: Progress, chapter: usize) -> ChapterMark {
    if progress.completed_chapters@.contains(chapter) {
        ChapterMark::Completed
    } else if progress.unlocked(chapter) && has_scenario(chapter) {
        ChapterMark::Open
    } else if progress.unlocked(chapter) {
        ChapterMark::Unplayable
    } else {
        ChapterMark::Locked
    }
}

/// The style of `chapter`'s entry: selected first, then dimmed when locked
/// or unplayable.
pub open spec fn style_of(progress: Progress, chapter: usize, selected: bool) -> EntryStyle {
    if selected {
        EntryStyle::Selected
    } else if !progress.unlocked(chapter) || !has_scenario(chapter) {
        EntryStyle::Dimmed
    } else {
        EntryStyle::Plain
    }
}

/// The entry under the cursor is always drawn as selected, whatever the
/// chapter's state; any other entry is dimmed exactly when its chapter is
/// locked or not playable. A chapter is marked completed exactly when it is
/// among the completed ones, and locked exactly when it is neither
/// completed nor unlocked.
pub proof fn lemma_menu_entries(progress: Progress, chapter: usize, selected: bool)
    ensures
        selected ==> style_of(progress, chapter, selected) == EntryStyle::Selected,
        !selected ==> (style_of(progress, chapter, selected) == EntryStyle::Dimmed <==> !(progress.unlocked(
            chapter,
        ) && has_scenario(chapter))),
        mark_of(progress, chapter) == ChapterMark::Completed <==> progress.completed_chapters@.contains(chapter),
        mark_of(progress, chapter) == ChapterMark::Locked <==> !progress.completed_chapters@.contains(chapter)
            && !progress.unlocked(chapter),
{
}

/// The mark and the style of `chapter`'s entry on the menu.
pub fn menu_entry(progress: &Progress, chapter: usize, selected: bool) -> (r: (ChapterMark, EntryStyle))
    requires
        chapter >= 1,
    ensures
        r.0 == mark_of(*progress, chapter),
        r.1 == style_of(*progress, chapter, selected),
        selected ==> r.1 == EntryStyle::Selected,
        !selected ==> (r.1 == EntryStyle::Dimmed <==> !(progress.unlocked(chapter) && has_scenario(chapter))),
        r.0 == ChapterMark::Completed <==> progress.completed_chapters@.contains(chapter),
        r.0 == ChapterMark::Locked <==> !progress.completed_chapters@.contains(chapter) && !progress.unlocked(chapter),
{
    let completed = progress.is_completed(chapter);
    let unlocked = progress.is_unlocked(chapter);
    let playable = get_scenario(chapter).is_some();
    let mark = if completed {
        ChapterMark::Completed
    } else if unlocked && playable {
        ChapterMark::Open
    } else if unlocked {
        ChapterMark::Unplayable
    } else {
        ChapterMark::Locked
    };
    let style = if selected {
        EntryStyle::Selected
    } else if !unlocked || !playable {
        EntryStyle::Dimmed
    } else {
        EntryStyle::Plain
    };
    (mark, style)
}

} // verus!
