//! Parsing of full-format (`+380XXXXXXXXX`) and local-format (`XXXXXXXXX`)
//! numbers into code, name and subscriber number.

use vstd::prelude::*;

use crate::registry::{all_digits, get_operator_or_area_name, is_digit, operator_name};

verus! {

/// The nine-digit grammar: a two-digit operator or area code followed by a
/// seven-digit subscriber number.
pub struct PhoneNumberParser;

/// A number that passed every validation step, split into its parts.
#[derive(Debug, PartialEq, Eq)]
pub struct ParsedPhoneNumber {
    /// The two-digit operator or area code.
    pub operator: String,
    /// The registry's name for `operator`.
    pub operator_name: String,
    /// The seven digits after the code.
    pub subscriber_number: String,
    /// Whether the number came through the local-format entry point.
    pub is_local_format: bool,
}

/// The cause of a rejected input.
#[derive(Debug, PartialEq, Eq)]
pub enum InputError {
    /// Nothing is left to parse once the prefix is handled.
    Empty,
    /// A character other than an ASCII digit is present.
    InvalidCharacters,
    /// The full-format entry point was given input without `+380`.
    MissingCountryPrefix,
    /// The digits are not exactly two of code and seven of subscriber number.
    Malformed,
    /// The two-digit code is not in the registry.
    InvalidCode(String),
}

/// Every rejection is an invalid input, told apart by its cause.
#[derive(Debug, PartialEq, Eq)]
pub enum ParsePhoneNumberError {
    InvalidInput(InputError),
}

/// The message that reports `e`.
pub open spec fn error_text(e: ParsePhoneNumberError) -> Seq<char> {
    match e {
        ParsePhoneNumberError::InvalidInput(cause) => "Invalid input: "@ + match cause {
            InputError::Empty => "Phone number is empty"@,
            InputError::InvalidCharacters => "Phone number contains invalid characters"@,
            InputError::MissingCountryPrefix => "Full format phone number must start with +380"@,
            InputError::Malformed => "Phone number must be a 2-digit code and a 7-digit subscriber number"@,
            InputError::InvalidCode(code) => "Invalid operator or area code: "@ + code@,
        },
    }
}

impl ParsePhoneNumberError {
    /// The message that reports this error to a user.
    pub fn message(&self) -> (r: String)
        ensures
            r@ == error_text(*self),
    {
        let ParsePhoneNumberError::InvalidInput(cause) = self;
        let text = String::from_str("Invalid input: ");
        match cause {
            InputError::Empty => text.concat("Phone number is empty"),
            InputError::InvalidCharacters => text.concat("Phone number contains invalid characters"),
            InputError::MissingCountryPrefix => text.concat(
                "Full format phone number must start with +380",
            ),
            InputError::Malformed => text.concat(
                "Phone number must be a 2-digit code and a 7-digit subscriber number",
            ),
            InputError::InvalidCode(code) => text.concat("Invalid operator or area code: ").concat(
                code.as_str(),
            ),
        }
    }
}

/// What parsing a character sequence comes to.
pub enum ParseOutcome {
    Parsed { operator: Seq<char>, name: Seq<char>, subscriber: Seq<char> },
    Empty,
    InvalidCharacters,
    MissingCountryPrefix,
    Malformed,
    UnknownCode(Seq<char>),
}

/// The country prefix of Ukrainian numbers.
pub open spec fn country_prefix() -> Seq<char> {
    seq!['+', '3', '8', '0']
}

/// Whether `s` begins with the country prefix.
pub open spec fn has_country_prefix(s: Seq<char>) -> bool {
    s.len() >= 4 && s.take(4) == country_prefix()
}

/// The outcome of validating what is left after the prefix, the first failing
/// step deciding.
pub open spec fn digits_outcome(rest: Seq<char>) -> ParseOutcome {
    if rest.len() == 0 {
        ParseOutcome::Empty
    } else if !all_digits(rest) {
        ParseOutcome::InvalidCharacters
    } else if rest.len() != 9 {
        ParseOutcome::Malformed
    } else {
        match operator_name(rest.take(2)) {
            Some(name) => ParseOutcome::Parsed {
                operator: rest.take(2),
                name,
                subscriber: rest.skip(2),
            },
            None => ParseOutcome::UnknownCode(rest.take(2)),
        }
    }
}

/// The outcome of parsing `s` as a full-format number.
pub open spec fn full_outcome(s: Seq<char>) -> ParseOutcome {
    if has_country_prefix(s) {
        digits_outcome(s.skip(4))
    } else {
        ParseOutcome::MissingCountryPrefix
    }
}

/// The outcome of parsing `s` as a local-format number, where a leading
/// `+380` is dropped.
pub open spec fn local_outcome(s: Seq<char>) -> ParseOutcome {
    if has_country_prefix(s) {
        digits_outcome(s.skip(4))
    } else {
        digits_outcome(s)
    }
}

/// Whether `r` is the value that stands for outcome `o`.
pub open spec fn describes(
    r: Result<ParsedPhoneNumber, ParsePhoneNumberError>,
    o: ParseOutcome,
    is_local: bool,
) -> bool {
    match o {
        ParseOutcome::Parsed { operator, name, subscriber } => match r {
            Ok(p) => p.operator@ == operator && p.operator_name@ == name
                && p.subscriber_number@ == subscriber && p.is_local_format == is_local,
            Err(_) => false,
        },
        ParseOutcome::Empty => r == Err::<ParsedPhoneNumber, ParsePhoneNumberError>(
            ParsePhoneNumberError::InvalidInput(InputError::Empty),
        ),
        ParseOutcome::InvalidCharacters => r == Err::<ParsedPhoneNumber, ParsePhoneNumberError>(
            ParsePhoneNumberError::InvalidInput(InputError::InvalidCharacters),
        ),
        ParseOutcome::MissingCountryPrefix => r == Err::<
            ParsedPhoneNumber,
            ParsePhoneNumberError,
        >(ParsePhoneNumberError::InvalidInput(InputError::MissingCountryPrefix)),
        ParseOutcome::Malformed => r == Err::<ParsedPhoneNumber, ParsePhoneNumberError>(
            ParsePhoneNumberError::InvalidInput(InputError::Malformed),
        ),
        ParseOutcome::UnknownCode(code) => match r {
            Err(ParsePhoneNumberError::InvalidInput(InputError::InvalidCode(c))) => c@ == code,
            _ => false,
        },
    }
}

/// The text of a number: the code and subscriber number, after `+380` unless
/// the number is in local format.
pub open spec fn formatted_text(
    operator: Seq<char>,
    subscriber: Seq<char>,
    is_local: bool,
) -> Seq<char> {
    if is_local {
        operator + subscriber
    } else {
        country_prefix() + operator + subscriber
    }
}

impl ParsedPhoneNumber {
    /// The code, name and subscriber number agree with the registry and the
    /// grammar.
    pub open spec fn wf(&self) -> bool {
        &&& self.operator@.len() == 2
        &&& all_digits(self.operator@)
        &&& operator_name(self.operator@) == Some(self.operator_name@)
        &&& self.subscriber_number@.len() == 7
        &&& all_digits(self.subscriber_number@)
    }

    /// The number written back in the form it was parsed from.
    pub fn formatted(&self) -> (r: String)
        ensures
            r@ == formatted_text(self.operator@, self.subscriber_number@, self.is_local_format),
    {
        if self.is_local_format {
            self.operator.clone().concat(self.subscriber_number.as_str())
        } else {
            proof {
                reveal_strlit("+380");
            }
            String::from_str("+380").concat(self.operator.as_str()).concat(
                self.subscriber_number.as_str(),
            )
        }
    }
}

/// Whether every character of `s` is an ASCII digit.
fn only_digits(s: &str) -> (r: bool)
    ensures
        r == all_digits(s@),
{
    let n = s.unicode_len();
    let mut i: usize = 0;
    while i < n
        invariant
            n == s@.len(),
            i <= n,
            forall|j: int| 0 <= j < i ==> is_digit(#[trigger] s@[j]),
        decreases n - i,
    {
        let c = s.get_char(i);
        if !('0' <= c && c <= '9') {
            return false;
        }
        i = i + 1;
    }
    true
}

/// Whether `s` begins with `+380`.
fn starts_with_country_prefix(s: &str) -> (r: bool)
    ensures
        r == has_country_prefix(s@),
{
    if s.unicode_len() < 4 {
        return false;
    }
    let r = s.get_char(0) == '+' && s.get_char(1) == '3' && s.get_char(2) == '8'
        && s.get_char(3) == '0';
    assert(r == (s@.take(4) =~= country_prefix()));
    r
}

impl PhoneNumberParser {
    /// Splits nine digits into the two-digit code and the seven-digit
    /// subscriber number; any other input does not match.
    pub fn split(digits: &str) -> (r: Option<(String, String)>)
        ensures
            r is Some <==> (digits@.len() == 9 && all_digits(digits@)),
            r matches Some((code, subscriber)) ==> code@ == digits@.take(2)
                && subscriber@ == digits@.skip(2),
    {
        let n = digits.unicode_len();
        if n != 9 || !only_digits(digits) {
            return None;
        }
        let code = String::from_str(digits.substring_char(0, 2));
        let subscriber = String::from_str(digits.substring_char(2, 9));
        Some((code, subscriber))
    }
}

/// The validation shared by both entry points, on what is left after the prefix.
fn parse_phone_number_internal(rest: &str, is_local_format: bool) -> (r: Result<
    ParsedPhoneNumber,
    ParsePhoneNumberError,
>)
    ensures
        describes(r, digits_outcome(rest@), is_local_format),
        r matches Ok(p) ==> p.wf(),
{
    if rest.unicode_len() == 0 {
        return Err(ParsePhoneNumberError::InvalidInput(InputError::Empty));
    }
    if !only_digits(rest) {
        return Err(ParsePhoneNumberError::InvalidInput(InputError::InvalidCharacters));
    }
    let (operator, subscriber_number) = match PhoneNumberParser::split(rest) {
        Some(parts) => parts,
        None => {
            return Err(ParsePhoneNumberError::InvalidInput(InputError::Malformed));
        },
    };
    let operator_name = match get_operator_or_area_name(operator.as_str()) {
        Some(name) => name,
        None => {
            return Err(ParsePhoneNumberError::InvalidInput(InputError::InvalidCode(operator)));
        },
    };
    proof {
        assert(subscriber_number@.len() == 7);
        assert(all_digits(subscriber_number@)) by {
            assert forall|i: int| 0 <= i < 7 implies is_digit(#[trigger] subscriber_number@[i]) by {
                assert(subscriber_number@[i] == rest@[i + 2]);
            }
        }
    }
    Ok(ParsedPhoneNumber { operator, operator_name, subscriber_number, is_local_format })
}

/// Parses a full-format number, which must begin with `+380`.
pub fn parse_phone_number(phone_number_string: &str) -> (r: Result<
    ParsedPhoneNumber,
    ParsePhoneNumberError,
>)
    ensures
        describes(r, full_outcome(phone_number_string@), false),
        r matches Ok(p) ==> p.wf(),
{
    if !starts_with_country_prefix(phone_number_string) {
        return Err(ParsePhoneNumberError::InvalidInput(InputError::MissingCountryPrefix));
    }
    let n = phone_number_string.unicode_len();
    parse_phone_number_internal(phone_number_string.substring_char(4, n), false)
}

/// Parses a local-format number; a leading `+380` is dropped first, so both
/// forms are accepted.
pub fn parse_phone_number_local(phone_number_string: &str) -> (r: Result<
    ParsedPhoneNumber,
    ParsePhoneNumberError,
>)
    ensures
        describes(r, local_outcome(phone_number_string@), true),
        r matches Ok(p) ==> p.wf(),
{
    if starts_with_country_prefix(phone_number_string) {
        let n = phone_number_string.unicode_len();
        parse_phone_number_internal(phone_number_string.substring_char(4, n), true)
    } else {
        parse_phone_number_internal(phone_number_string, true)
    }
}

} // verus!
