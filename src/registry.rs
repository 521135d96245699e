//! The fixed table from two-digit codes to operator and region names.

use vstd::prelude::*;

verus! {

/// Whether `c` is an ASCII decimal digit.
pub open spec fn is_digit(c: char) -> bool {
    '0' <= c && c <= '9'
}

/// Whether every character of `s` is an ASCII decimal digit.
pub open spec fn all_digits(s: Seq<char>) -> bool {
    forall|i: int| 0 <= i < s.len() ==> is_digit(#[trigger] s[i])
}

/// The display name that the registry gives to `code`, if it knows it.
pub open spec fn operator_name(code: Seq<char>) -> Option<Seq<char>> {
    if code.len() != 2 {
        None
    } else {
        match (code[0], code[1]) {
            ('5', '0') | ('6', '6') | ('9', '5') | ('9', '9') => Some("Vodafone"@),
            ('6', '3') | ('7', '3') | ('9', '3') => Some("lifecell"@),
            ('6', '7') | ('6', '8') | ('9', '6') | ('9', '7') | ('9', '8') => Some("Kyivstar"@),
            ('9', '1') => Some("3mob"@),
            ('9', '2') => Some("PEOPLEnet"@),
            ('9', '4') => Some("Intertelecom"@),
            ('4', '4') => Some("Kyiv City"@),
            ('3', '2') => Some("Lviv Oblast"@),
            ('4', '8') => Some("Odesa Oblast"@),
            ('5', '6') => Some("Dnipro"@),
            ('6', '1') => Some("Zaporizhzhia Oblast"@),
            ('6', '4') => Some("Luhansk Oblast"@),
            ('6', '9') => Some("Sevastopol"@),
            ('4', '5') => Some("Kyiv Oblast"@),
            ('4', '6') => Some("Chernihiv Oblast"@),
            ('4', '7') => Some("Cherkasy Oblast"@),
            ('5', '1') => Some("Mykolaiv Oblast"@),
            ('5', '2') => Some("Kirovohrad Oblast"@),
            ('5', '3') => Some("Poltava Oblast"@),
            ('5', '4') => Some("Sumy Oblast"@),
            ('5', '5') => Some("Kherson Oblast"@),
            _ => None,
        }
    }
}

/// Whether `name` is the name of a mobile operator rather than of a region.
pub open spec fn names_mobile_operator(name: Seq<char>) -> bool {
    name == "Vodafone"@ || name == "lifecell"@ || name == "Kyivstar"@ || name == "3mob"@
        || name == "PEOPLEnet"@ || name == "Intertelecom"@
}

/// Looks `code` up in the registry: `Some(name)` for a known code, `None` for
/// any other string.
pub fn get_operator_or_area_name(code: &str) -> (r: Option<String>)
    ensures
        match r {
            Some(name) => operator_name(code@) == Some(name@),
            None => operator_name(code@) is None,
        },
{
    if code.unicode_len() != 2 {
        return None;
    }
    let a = code.get_char(0);
    let b = code.get_char(1);
    let name = match (a, b) {
        ('5', '0') | ('6', '6') | ('9', '5') | ('9', '9') => "Vodafone",
        ('6', '3') | ('7', '3') | ('9', '3') => "lifecell",
        ('6', '7') | ('6', '8') | ('9', '6') | ('9', '7') | ('9', '8') => "Kyivstar",
        ('9', '1') => "3mob",
        ('9', '2') => "PEOPLEnet",
        ('9', '4') => "Intertelecom",
        ('4', '4') => "Kyiv City",
        ('3', '2') => "Lviv Oblast",
        ('4', '8') => "Odesa Oblast",
        ('5', '6') => "Dnipro",
        ('6', '1') => "Zaporizhzhia Oblast",
        ('6', '4') => "Luhansk Oblast",
        ('6', '9') => "Sevastopol",
        ('4', '5') => "Kyiv Oblast",
        ('4', '6') => "Chernihiv Oblast",
        ('4', '7') => "Cherkasy Oblast",
        ('5', '1') => "Mykolaiv Oblast",
        ('5', '2') => "Kirovohrad Oblast",
        ('5', '3') => "Poltava Oblast",
        ('5', '4') => "Sumy Oblast",
        ('5', '5') => "Kherson Oblast",
        _ => {
            return None;
        },
    };
    Some(String::from_str(name))
}

/// Whether `name` is the name of a mobile operator; any other name that the
/// registry gives is that of a geographic area.
pub fn is_mobile_operator(name: &str) -> (r: bool)
    ensures
        r == names_mobile_operator(name@),
{
    same_text(name, "Vodafone") || same_text(name, "lifecell") || same_text(name, "Kyivstar")
        || same_text(name, "3mob") || same_text(name, "PEOPLEnet") || same_text(name, "Intertelecom")
}

/// Whether `a` and `b` hold the same characters.
pub fn same_text(a: &str, b: &str) -> (r: bool)
    ensures
        r == (a@ == b@),
{
    let n = a.unicode_len();
    if n != b.unicode_len() {
        return false;
    }
    let mut i: usize = 0;
    while i < n
        invariant
            n == a@.len(),
            n == b@.len(),
            i <= n,
            a@.take(i as int) == b@.take(i as int),
        decreases n - i,
    {
        if a.get_char(i) != b.get_char(i) {
            assert(a@[i as int] != b@[i as int]);
            return false;
        }
        assert(a@.take(i + 1) =~= a@.take(i as int).push(a@[i as int]));
        assert(b@.take(i + 1) =~= b@.take(i as int).push(b@[i as int]));
        i = i + 1;
    }
    assert(a@ =~= a@.take(n as int));
    assert(b@ =~= b@.take(n as int));
    true
}

} // verus!
