//! Format checks by regular expression. What a pattern means is the `regex`
//! crate's to say: the contracts here name its answers and prove nothing of
//! them.

use regex::Regex;
use vstd::prelude::*;

verus! {

/// A compiled regular expression of the `regex` crate.
#[verifier::external_type_specification]
#[verifier::external_body]
pub struct ExRegex(Regex);

/// The error of `Regex::new`, carried through and never looked into.
#[verifier::external_type_specification]
#[verifier::external_body]
pub struct ExRegexError(regex::Error);

/// Whether `Regex::new` accepts `pattern`.
pub uninterp spec fn pattern_compiles(pattern: Seq<char>) -> bool;

/// Whether the expression that `Regex::new` compiles from `pattern` finds a
/// match anywhere in `text`.
pub uninterp spec fn pattern_matches(pattern: Seq<char>, text: Seq<char>) -> bool;

/// Whether this compiled expression finds a match anywhere in `text`, as
/// `Regex::is_match` answers. It is a matter of the expression and not of
/// its pattern alone: a builder can compile one pattern under other settings.
pub uninterp spec fn regex_accepts(compiled: Regex, text: Seq<char>) -> bool;

/// `Regex::new` compiles with the crate's default settings, so whether it
/// succeeds and what the compiled expression matches depend on the pattern
/// alone.
pub assume_specification[ Regex::new ](re: &str) -> (r: Result<Regex, regex::Error>)
    ensures
        r is Ok == pattern_compiles(re@),
        r matches Ok(compiled) ==> forall|text: Seq<char>| #[trigger]
            regex_accepts(compiled, text) == pattern_matches(re@, text),
;

/// `Regex::is_match` answers whether the haystack holds a match of this
/// expression; the same expression and haystack give the same answer.
pub assume_specification[ Regex::is_match ](re: &Regex, haystack: &str) -> (found: bool)
    ensures
        found == regex_accepts(*re, haystack@),
;

/// An address: one or more characters that are neither white space nor `@`,
/// an `@`, more such characters, a dot, and more such characters, from the
/// first character of the text to the last.
pub const EMAIL_PATTERN: &'static str = "^[^\\s@]+@[^\\s@]+\\.[^\\s@]+$";

/// A phone number: exactly ten decimal digits, and nothing else.
pub const PHONE_PATTERN: &'static str = "^\\d{10}$";

/// `pattern` compiles and `text` holds a match of it.
pub open spec fn accepts(pattern: Seq<char>, text: Seq<char>) -> bool {
    pattern_compiles(pattern) && pattern_matches(pattern, text)
}

/// `email` has the form of an address.
pub open spec fn email_well_formed(email: Seq<char>) -> bool {
    accepts(EMAIL_PATTERN@, email)
}

/// `phone` has the form of a phone number.
pub open spec fn phone_well_formed(phone: Seq<char>) -> bool {
    accepts(PHONE_PATTERN@, phone)
}

/// Whether `pattern` compiles and finds a match in `text`. A pattern that
/// does not compile accepts nothing.
pub fn is_accepted(pattern: &str, text: &str) -> (ok: bool)
    ensures
        ok == accepts(pattern@, text@),
{
    match Regex::new(pattern) {
        Ok(compiled) => compiled.is_match(text),
        Err(_) => false,
    }
}

/// Whether `email` has the form of an address.
pub fn is_email(email: &str) -> (ok: bool)
    ensures
        ok == email_well_formed(email@),
{
    is_accepted(EMAIL_PATTERN, email)
}

/// Whether `phone` has the form of a phone number.
pub fn is_phone(phone: &str) -> (ok: bool)
    ensures
        ok == phone_well_formed(phone@),
{
    is_accepted(PHONE_PATTERN, phone)
}

} // verus!
