//! JSON text for the values that replies carry: lists of strings, which
//! `serde_json` encodes, and counts, which are written in decimal.

use vstd::prelude::*;
use vstd::string::StringExecFns;

verus! {

/// The error type of `serde_json`, carried through unread.
#[verifier::external_type_specification]
#[verifier::external_body]
pub struct ExJsonError(serde_json::Error);

/// What `serde_json::to_string` gives for a list of strings: the JSON text it
/// writes, or `None` where it reports an error instead. Nothing is stated of
/// what the text holds.
pub uninterp spec fn encoded_strings(items: Seq<Seq<char>>) -> Option<Seq<char>>;

/// Trusted: calls `serde_json::to_string` on the list. The contract claims
/// only that the outcome, the text written or the failure reported, is
/// `encoded_strings` of the list's contents: the encoder reads nothing but its
/// argument, so equal lists give equal outcomes. It claims neither what the
/// text holds nor that the call succeeds.
#[verifier::external_body]
fn to_json_text(items: &Vec<String>) -> (text: Result<String, serde_json::Error>)
    ensures
        match text {
            Ok(t) => encoded_strings(items.deep_view()) == Some(t@),
            Err(_) => encoded_strings(items.deep_view()).is_none(),
        },
{
    serde_json::to_string(items)
}

/// The JSON text of a list of strings, or `None` where the encoder fails.
pub fn encode_strings(items: &Vec<String>) -> (text: Option<String>)
    ensures
        match text {
            Some(t) => encoded_strings(items.deep_view()) == Some(t@),
            None => encoded_strings(items.deep_view()).is_none(),
        },
{
    match to_json_text(items) {
        Ok(t) => Some(t),
        Err(_) => None,
    }
}

/// The character of a decimal digit.
pub open spec fn digit(d: int) -> char {
    if d == 0 {
        '0'
    } else if d == 1 {
        '1'
    } else if d == 2 {
        '2'
    } else if d == 3 {
        '3'
    } else if d == 4 {
        '4'
    } else if d == 5 {
        '5'
    } else if d == 6 {
        '6'
    } else if d == 7 {
        '7'
    } else if d == 8 {
        '8'
    } else {
        '9'
    }
}

/// A number in decimal, without leading zeros; zero is "0".
pub open spec fn decimal(n: nat) -> Seq<char>
    decreases n,
{
    if n < 10 {
        seq![digit(n as int)]
    } else {
        decimal(n / 10).push(digit((n % 10) as int))
    }
}

fn digit_text(d: usize) -> (text: &'static str)
    requires
        d < 10,
    ensures
        text@ == seq![digit(d as int)],
{
    proof {
        reveal_strlit("0");
        reveal_strlit("1");
        reveal_strlit("2");
        reveal_strlit("3");
        reveal_strlit("4");
        reveal_strlit("5");
        reveal_strlit("6");
        reveal_strlit("7");
        reveal_strlit("8");
        reveal_strlit("9");
    }
    let text = if d == 0 {
        "0"
    } else if d == 1 {
        "1"
    } else if d == 2 {
        "2"
    } else if d == 3 {
        "3"
    } else if d == 4 {
        "4"
    } else if d == 5 {
        "5"
    } else if d == 6 {
        "6"
    } else if d == 7 {
        "7"
    } else if d == 8 {
        "8"
    } else {
        "9"
    };
    assert(text@ =~= seq![digit(d as int)]);
    text
}

/// A count in decimal, as JSON writes a non-negative integer.
pub fn encode_count(n: usize) -> (text: String)
    ensures
        text@ == decimal(n as nat),
{
    let mut text = digit_text(n % 10).to_owned();
    let mut rest = n / 10;
    assert(decimal(n as nat) =~= if rest == 0 {
        text@
    } else {
        decimal(rest as nat) + text@
    });
    while rest > 0
        invariant
            decimal(n as nat) == if rest == 0 {
                text@
            } else {
                decimal(rest as nat) + text@
            },
        decreases rest,
    {
        let ghost low = text@;
        let mut longer = digit_text(rest % 10).to_owned();
        longer.append(text.as_str());
        text = longer;
        let ghost high = rest as nat;
        rest = rest / 10;
        assert(decimal(high) + low =~= if rest == 0 {
            text@
        } else {
            decimal(rest as nat) + text@
        });
    }
    text
}

} // verus!
