//! Country names for the country codes an edge proxy reports.

use vstd::prelude::*;
use vstd::string::StringExecFns;
use crate::json::str_eq;

verus! {

/// The ISO 3166-1 alpha-2 country name for a code, compared ignoring ASCII
/// case.
pub uninterp spec fn alpha2_country(code: Seq<char>) -> Option<Seq<char>>;

/// The ISO 3166-1 alpha-3 country name for a code, compared ignoring ASCII
/// case.
pub uninterp spec fn alpha3_country(code: Seq<char>) -> Option<Seq<char>>;

/// The ISO 3166-1 numeric country name for a code.
pub uninterp spec fn numeric_country(code: Seq<char>) -> Option<Seq<char>>;

pub open spec fn ascii_lower(c: char) -> char {
    if 'A' <= c && c <= 'Z' {
        ((c as u8) + 32) as char
    } else {
        c
    }
}

/// Equal but for the case of ASCII letters.
pub open spec fn eq_ignore_ascii_case(a: Seq<char>, b: Seq<char>) -> bool {
    a.len() == b.len() && forall|i: int| 0 <= i < a.len() ==> ascii_lower(a[i]) == ascii_lower(b[i])
}

fn lower(c: char) -> (r: char)
    ensures
        r == ascii_lower(c),
{
    if 'A' <= c && c <= 'Z' {
        ((c as u8) + 32) as char
    } else {
        c
    }
}

/// Compares two codes ignoring the case of ASCII letters.
pub fn codes_match(a: &str, b: &str) -> (r: bool)
    ensures
        r == eq_ignore_ascii_case(a@, b@),
{
    let n = a.unicode_len();
    if n != b.unicode_len() {
        return false;
    }
    let mut i: usize = 0;
    while i < n
        invariant
            n == a@.len(),
            n == b@.len(),
            i <= n,
            forall|j: int| 0 <= j < i ==> ascii_lower(a@[j]) == ascii_lower(b@[j]),
        decreases n - i,
    {
        if lower(a.get_char(i)) != lower(b.get_char(i)) {
            return false;
        }
        i = i + 1;
    }
    true
}

/// Relies on dia_i18n's `ALPHA2_CODES` table: the name of the first entry
/// whose code matches. Codes equal but for ASCII case match the same entries.
#[verifier::external_body]
fn lookup_alpha2(code: &str) -> (r: Option<&'static str>)
    ensures
        match r {
            Some(n) => alpha2_country(code@) == Some(n@) && forall|c: Seq<char>|
                eq_ignore_ascii_case(c, code@) ==> alpha2_country(c) == Some(n@),
            None => alpha2_country(code@) is None && forall|c: Seq<char>|
                eq_ignore_ascii_case(c, code@) ==> alpha2_country(c) is None,
        },
{
    dia_i18n::iso_3166_1::ALPHA2_CODES.iter().find(|c| codes_match(c.code(), code)).map(|c| c.country_name())
}

/// Relies on dia_i18n's `ALPHA3_CODES` table: the name of the first entry
/// whose code matches. Codes equal but for ASCII case match the same entries.
#[verifier::external_body]
fn lookup_alpha3(code: &str) -> (r: Option<&'static str>)
    ensures
        match r {
            Some(n) => alpha3_country(code@) == Some(n@) && forall|c: Seq<char>|
                eq_ignore_ascii_case(c, code@) ==> alpha3_country(c) == Some(n@),
            None => alpha3_country(code@) is None && forall|c: Seq<char>|
                eq_ignore_ascii_case(c, code@) ==> alpha3_country(c) is None,
        },
{
    dia_i18n::iso_3166_1::ALPHA3_CODES.iter().find(|c| codes_match(c.code(), code)).map(|c| c.country_name())
}

/// Relies on dia_i18n's `NUMERIC_CODES` table: the name of the first entry
/// with this code.
#[verifier::external_body]
fn lookup_numeric(code: &str) -> (r: Option<&'static str>)
    ensures
        match r {
            Some(n) => numeric_country(code@) == Some(n@),
            None => numeric_country(code@) is None,
        },
{
    dia_i18n::iso_3166_1::NUMERIC_CODES.iter().find(|c| str_eq(c.code(), code)).map(|c| c.country_name())
}

pub open spec fn is_ascii_letter(c: char) -> bool {
    ('a' <= c && c <= 'z') || ('A' <= c && c <= 'Z')
}

pub open spec fn is_ascii_digit(c: char) -> bool {
    '0' <= c && c <= '9'
}

fn all_letters(s: &str) -> (r: bool)
    ensures
        r == (forall|i: int| 0 <= i < s@.len() ==> is_ascii_letter(s@[i])),
{
    let n = s.unicode_len();
    let mut i: usize = 0;
    while i < n
        invariant
            n == s@.len(),
            i <= n,
            forall|j: int| 0 <= j < i ==> is_ascii_letter(s@[j]),
        decreases n - i,
    {
        let c = s.get_char(i);
        if !(('a' <= c && c <= 'z') || ('A' <= c && c <= 'Z')) {
            return false;
        }
        i = i + 1;
    }
    true
}

fn all_digits(s: &str) -> (r: bool)
    ensures
        r == (forall|i: int| 0 <= i < s@.len() ==> is_ascii_digit(s@[i])),
{
    let n = s.unicode_len();
    let mut i: usize = 0;
    while i < n
        invariant
            n == s@.len(),
            i <= n,
            forall|j: int| 0 <= j < i ==> is_ascii_digit(s@[j]),
        decreases n - i,
    {
        let c = s.get_char(i);
        if !('0' <= c && c <= '9') {
            return false;
        }
        i = i + 1;
    }
    true
}

/// The country name of an ISO 3166-1 code: two letters as alpha-2, three
/// letters as alpha-3, three digits as numeric; `None` for anything else or
/// an unknown code.
pub open spec fn country_of_code(code: Seq<char>) -> Option<Seq<char>> {
    let letters = forall|i: int| 0 <= i < code.len() ==> is_ascii_letter(code[i]);
    let digits = forall|i: int| 0 <= i < code.len() ==> is_ascii_digit(code[i]);
    if code.len() == 2 && letters {
        alpha2_country(code)
    } else if code.len() == 3 && letters {
        alpha3_country(code)
    } else if code.len() == 3 && digits {
        numeric_country(code)
    } else {
        None
    }
}

/// Two characters equal but for ASCII case are both letters or both not,
/// and are the same character where they are not letters.
pub proof fn lemma_lower_eq(x: char, y: char)
    requires
        ascii_lower(x) == ascii_lower(y),
    ensures
        is_ascii_letter(x) <==> is_ascii_letter(y),
        !is_ascii_letter(x) ==> x == y,
{
}

/// Codes equal but for ASCII case name the same country.
pub proof fn lemma_code_case(c: Seq<char>, code: Seq<char>)
    requires
        eq_ignore_ascii_case(c, code),
    ensures
        (forall|i: int| 0 <= i < c.len() ==> is_ascii_letter(c[i])) <==> (forall|i: int|
            0 <= i < code.len() ==> is_ascii_letter(code[i])),
        (forall|i: int| 0 <= i < code.len() ==> is_ascii_digit(code[i])) ==> c == code,
        (forall|i: int| 0 <= i < c.len() ==> is_ascii_digit(c[i])) ==> c == code,
{
    assert forall|i: int| 0 <= i < c.len() implies (is_ascii_letter(c[i]) <==> is_ascii_letter(
        code[i],
    )) && (!is_ascii_letter(c[i]) ==> c[i] == code[i]) by {
        lemma_lower_eq(c[i], code[i]);
    }
    if forall|i: int| 0 <= i < code.len() ==> is_ascii_digit(code[i]) {
        assert(c =~= code);
    }
    if forall|i: int| 0 <= i < c.len() ==> is_ascii_digit(c[i]) {
        assert(c =~= code);
    }
}

/// Looks up the country name of a code. Codes equal but for ASCII case
/// name the same country.
pub fn cc2n(code: &str) -> (r: Option<&'static str>)
    ensures
        match r {
            Some(n) => country_of_code(code@) == Some(n@),
            None => country_of_code(code@) is None,
        },
        forall|c: Seq<char>| eq_ignore_ascii_case(c, code@) ==> country_of_code(c) == country_of_code(
            code@,
        ),
{
    proof {
        assert forall|c: Seq<char>| eq_ignore_ascii_case(c, code@) implies (forall|i: int|
            0 <= i < c.len() ==> is_ascii_letter(c[i])) == (forall|i: int|
            0 <= i < code@.len() ==> is_ascii_letter(code@[i])) && ((forall|i: int|
            0 <= i < c.len() ==> is_ascii_digit(c[i])) ==> c == code@) && ((forall|i: int|
            0 <= i < code@.len() ==> is_ascii_digit(code@[i])) ==> c == code@) by {
            lemma_code_case(c, code@);
        }
    }
    let n = code.unicode_len();
    if n == 2 {
        if all_letters(code) {
            lookup_alpha2(code)
        } else {
            None
        }
    } else if n == 3 {
        if all_letters(code) {
            lookup_alpha3(code)
        } else if all_digits(code) {
            lookup_numeric(code)
        } else {
            None
        }
    } else {
        None
    }
}

/// Where an upload came from, as the edge proxy reports it.
#[derive(Debug)]
pub struct CloudflareInfo {
    /// The client's address, as text.
    pub ip: String,
    /// The country code; `XX` for no data, `T1` for Tor.
    pub country: String,
}

/// The name shown for a reported country code.
pub open spec fn country_display_name(country: Seq<char>) -> Seq<char> {
    if country == "XX"@ {
        "No Data"@
    } else if country == "T1"@ {
        "Tor"@
    } else {
        match country_of_code(country) {
            Some(n) => n,
            None => "Unknown"@,
        }
    }
}

impl CloudflareInfo {
    pub fn get_country_name(&self) -> (r: String)
        ensures
            r@ == country_display_name(self.country@),
    {
        let country = self.country.as_str();
        if str_eq(country, "XX") {
            String::from_str("No Data")
        } else if str_eq(country, "T1") {
            String::from_str("Tor")
        } else {
            match cc2n(country) {
                Some(name) => String::from_str(name),
                None => String::from_str("Unknown"),
            }
        }
    }
}

} // verus!
