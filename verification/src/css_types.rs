//! CSS percentage literals, as text.

use vstd::prelude::*;
use vstd::string::{StrSliceExecFns, StringExecFns};

verus! {

/// Whether the last character of the text is a percent sign.
pub open spec fn ends_with_percent(text: Seq<char>) -> bool {
    text.len() > 0 && text.last() == '%'
}

/// Checks if something can be parsed as a CSS percentage: whether its last
/// character is `%`. The number before the sign is not looked at.
pub fn is_percentage(seq: &str) -> (percentage: bool)
    ensures
        percentage == ends_with_percent(seq@),
{
    let length = seq.unicode_len();
    length > 0 && seq.get_char(length - 1) == '%'
}

/// The number of a CSS percentage: the text before its final `%`.
pub fn percentage_number(seq: &str) -> (number: &str)
    requires
        ends_with_percent(seq@),
    ensures
        number@ == seq@.drop_last(),
{
    let length = seq.unicode_len();
    seq.substring_char(0, length - 1)
}

/// The text of a CSS percentage whose number is written `number`: the number
/// with `%` behind it.
pub fn with_percent_sign(number: &str) -> (text: String)
    ensures
        text@ == number@.push('%'),
{
    proof {
        reveal_strlit("%");
    }
    let text = String::from_str(number).concat("%");
    assert(text@ =~= number@.push('%'));
    text
}

/// A number with a percent sign behind it is a percentage, and the number of
/// that percentage is the number again.
pub proof fn lemma_percent_sign_round_trip(number: Seq<char>)
    ensures
        ends_with_percent(number.push('%')),
        number.push('%').drop_last() == number,
{
    assert(number.push('%').drop_last() =~= number);
}

} // verus!
