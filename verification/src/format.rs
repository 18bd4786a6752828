//! The text formats of the forecast message: temperatures, dates, hours of
//! the day and condition symbols.

use vstd::prelude::*;
use crate::codes::{condition_of_code, describe};
use crate::text::{chars_of, substitute, substituted};

verus! {

/// A temperature as it is shown: the provider's text with a long dash for
/// each minus sign.
pub open spec fn temperature_text(raw: Seq<char>) -> Seq<char> {
    substituted(raw, '-', '—')
}

/// A date as it is shown: the provider's text with a middle dot for each
/// hyphen.
pub open spec fn date_text(raw: Seq<char>) -> Seq<char> {
    substituted(raw, '-', '·')
}

/// `raw` without its last two characters where these are two zeros.
pub open spec fn without_trailing_zeros(raw: Seq<char>) -> Seq<char> {
    if raw.len() >= 2 && raw[raw.len() - 1] == '0' && raw[raw.len() - 2] == '0' {
        raw.take(raw.len() - 2)
    } else {
        raw
    }
}

/// `s` with zeros in front of it until it is two characters long.
pub open spec fn left_padded(s: Seq<char>) -> Seq<char> {
    if s.len() >= 2 {
        s
    } else if s.len() == 1 {
        seq!['0'] + s
    } else {
        seq!['0', '0']
    }
}

/// An hour of the day as it is shown. The provider counts in hundreds
/// (`0`, `300`, ... `2100`); the label is the hour in two digits.
pub open spec fn hour_label(raw: Seq<char>) -> Seq<char> {
    left_padded(without_trailing_zeros(raw))
}

/// Formats a temperature: every `-` becomes `—`.
pub fn fmt_temperature(raw: &str) -> (shown: String)
    ensures
        shown@ == temperature_text(raw@),
{
    substitute(raw, '-', '—')
}

/// Formats a date: every `-` becomes `·`.
pub fn fmt_date(raw: &str) -> (shown: String)
    ensures
        shown@ == date_text(raw@),
{
    substitute(raw, '-', '·')
}

/// Formats an hour of the day: a trailing `00` is dropped and what is left
/// is padded with zeros on the left to two characters.
pub fn fmt_time(raw: &str) -> (shown: String)
    ensures
        shown@ == hour_label(raw@),
{
    let v = chars_of(raw);
    let n = v.len();
    let end = if n >= 2 && v[n - 1] == '0' && v[n - 2] == '0' {
        n - 2
    } else {
        n
    };
    assert(v@.take(end as int) == without_trailing_zeros(raw@)) by {
        assert(v@.take(n as int) =~= v@);
    }
    let mut shown = String::new();
    if end < 2 {
        shown.push('0');
    }
    if end < 1 {
        shown.push('0');
    }
    let ghost prefix = shown@;
    let mut i: usize = 0;
    while i < end
        invariant
            i <= end <= v@.len(),
            shown@ == prefix + v@.take(i as int),
        decreases end - i,
    {
        shown.push(v[i]);
        i += 1;
        assert(v@.take(i as int) =~= v@.take(i - 1).push(v@[i - 1]));
        assert(prefix + v@.take(i - 1).push(v@[i - 1]) =~= (prefix + v@.take(i - 1)).push(
            v@[i - 1],
        ));
    }
    assert(shown@ =~= hour_label(raw@));
    shown
}

/// The symbol shown for a condition code. Never fails: a code that the
/// table does not hold gets the symbol of `Condition::Unknown`.
pub fn fmt_wwo_code(code: &str) -> (shown: String)
    ensures
        shown@ == condition_of_code(code@).symbol_text(),
{
    let mut shown = String::new();
    shown.append(describe(code).symbol());
    assert(shown@ =~= condition_of_code(code@).symbol_text());
    shown
}

/// Formatting a date changes hyphens and nothing else: the length stays and
/// every character that is no hyphen stays where it is.
pub proof fn date_text_touches_only_hyphens(raw: Seq<char>)
    ensures
        date_text(raw).len() == raw.len(),
        forall|i: int|
            0 <= i < raw.len() ==> #[trigger] date_text(raw)[i] == (if raw[i] == '-' {
                '·'
            } else {
                raw[i]
            }),
        !date_text(raw).contains('-'),
{
}

/// A formatted date holds no hyphen, so formatting it again changes nothing.
pub proof fn date_text_is_idempotent(raw: Seq<char>)
    ensures
        date_text(date_text(raw)) == date_text(raw),
{
    assert(date_text(date_text(raw)) =~= date_text(raw));
}

/// An hour label is never shorter than two characters.
pub proof fn hour_label_is_padded(raw: Seq<char>)
    ensures
        hour_label(raw).len() >= 2,
        without_trailing_zeros(raw).len() >= 2 ==> hour_label(raw) == without_trailing_zeros(raw),
{
}

} // verus!
