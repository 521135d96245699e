//! Properties that relate the entry points, the grammar and formatting.

use vstd::prelude::*;

use crate::parser::{
    country_prefix, describes, formatted_text, full_outcome, has_country_prefix, local_outcome,
    ParseOutcome, ParsePhoneNumberError, ParsedPhoneNumber,
};
use crate::registry::{all_digits, is_digit, operator_name};

verus! {

/// `+380` followed by nine digits whose first two are a known code parses in
/// full format into that code, the registry's name for it, and the remaining
/// seven digits.
pub proof fn lemma_known_code_parses(digits: Seq<char>)
    requires
        digits.len() == 9,
        all_digits(digits),
        operator_name(digits.take(2)) is Some,
    ensures
        full_outcome(country_prefix() + digits) == (ParseOutcome::Parsed {
            operator: digits.take(2),
            name: operator_name(digits.take(2))->0,
            subscriber: digits.skip(2),
        }),
{
    let s = country_prefix() + digits;
    assert(s.take(4) =~= country_prefix());
    assert(s.skip(4) =~= digits);
}

/// Formatting what the full-format entry point accepted gives back its input.
pub proof fn lemma_full_round_trip(s: Seq<char>, r: Result<ParsedPhoneNumber, ParsePhoneNumberError>)
    requires
        describes(r, full_outcome(s), false),
        r is Ok,
    ensures
        formatted_text(r->Ok_0.operator@, r->Ok_0.subscriber_number@, r->Ok_0.is_local_format)
            == s,
{
    let rest = s.skip(4);
    assert(rest.take(2) + rest.skip(2) =~= rest);
    assert(s.take(4) + rest =~= s);
}

/// Formatting what the local-format entry point accepted from a number
/// without the prefix gives back its input.
pub proof fn lemma_local_round_trip(s: Seq<char>, r: Result<ParsedPhoneNumber, ParsePhoneNumberError>)
    requires
        !has_country_prefix(s),
        describes(r, local_outcome(s), true),
        r is Ok,
    ensures
        formatted_text(r->Ok_0.operator@, r->Ok_0.subscriber_number@, r->Ok_0.is_local_format)
            == s,
{
    assert(s.take(2) + s.skip(2) =~= s);
}

/// The full-format entry point rejects every input that does not begin with
/// `+380`.
pub proof fn lemma_full_requires_prefix(s: Seq<char>)
    requires
        !has_country_prefix(s),
    ensures
        full_outcome(s) == ParseOutcome::MissingCountryPrefix,
{
}

/// The local-format entry point comes to the same outcome on nine digits with
/// and without `+380` in front.
pub proof fn lemma_local_accepts_both_forms(digits: Seq<char>)
    requires
        digits.len() == 9,
        all_digits(digits),
    ensures
        local_outcome(country_prefix() + digits) == local_outcome(digits),
{
    let s = country_prefix() + digits;
    assert(s.take(4) =~= country_prefix());
    assert(s.skip(4) =~= digits);
    assert(is_digit(digits[0]));
    assert(digits.take(4)[0] == digits[0]);
    assert(!has_country_prefix(digits));
}

/// Only nine digits, or `+380` and nine digits, are ever accepted: an empty
/// input, or one with a digit too few or too many, is rejected.
pub proof fn lemma_accepted_shape(s: Seq<char>)
    ensures
        full_outcome(s) is Parsed ==> s.len() == 13 && has_country_prefix(s) && all_digits(
            s.skip(4),
        ),
        local_outcome(s) is Parsed ==> (s.len() == 9 && all_digits(s)) || (s.len() == 13
            && has_country_prefix(s) && all_digits(s.skip(4))),
{
}

/// An input holding a character that is neither a digit nor `+` (a letter,
/// punctuation, whitespace) is rejected by both entry points.
pub proof fn lemma_rejects_foreign_characters(s: Seq<char>, i: int)
    requires
        0 <= i < s.len(),
        !is_digit(s[i]),
        s[i] != '+',
    ensures
        !(full_outcome(s) is Parsed),
        !(local_outcome(s) is Parsed),
{
    lemma_accepted_shape(s);
    if has_country_prefix(s) {
        if i < 4 {
            assert(s[i] == s.take(4)[i]);
            assert(s[i] == country_prefix()[i]);
        } else {
            assert(s[i] == s.skip(4)[i - 4]);
        }
    }
}

} // verus!
