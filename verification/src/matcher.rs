//! The pattern matchers that pull the sequence number and the message type out
//! of a text payload. Matching itself is the work of the `regex` crate; this
//! module compiles the two expressions once and names what they capture.

use crate::connector::err2str;
use regex::Regex;
use vstd::prelude::*;

verus! {

/// The expression whose first group captures the digits of the sequence
/// field: the name, one character, a colon, at most one character that is no
/// digit, then the digits. The greedy prefix takes the search to the last
/// such field of the text.
pub const SEQVAL: &'static str = r#"[\s\S]*sequence.:\D?(\d+)[\s\S]*"#;

/// The expression whose first group captures the word of the type field: the
/// name, one character, a colon, one more character, then the lowercase
/// letters. The greedy prefix takes the search to the last such field of the
/// text.
pub const PACKETTYPE: &'static str = r#"[\s\S]*type.:.([a-z]+)[\s\S]*"#;

/// A compiled expression of the `regex` crate. Opaque here.
#[verifier::external_type_specification]
#[verifier::external_body]
pub struct ExRegex(regex::Regex);

/// The error of the `regex` crate for an expression that does not compile.
/// Opaque here.
#[verifier::external_type_specification]
#[verifier::external_body]
pub struct ExRegexError(regex::Error);

/// Whether `Regex::new` compiles a pattern: whether the pattern is a valid
/// expression that stays within the size limits the crate sets by default.
pub uninterp spec fn compiles(pattern: Seq<char>) -> bool;

/// The string that a compiled expression was made from, as `Regex::as_str`
/// returns it.
pub uninterp spec fn pattern_of(re: Regex) -> Seq<char>;

/// The substring of `text` that the first capture group of `re` matched in the
/// leftmost match that `Regex::captures` finds, or `None` where the expression
/// does not match or the group took no part in the match.
pub uninterp spec fn first_group(re: Regex, text: Seq<char>) -> Option<Seq<char>>;

/// The view of an optional string.
pub open spec fn text_of(field: Option<String>) -> Option<Seq<char>> {
    match field {
        Some(s) => Some(s@),
        None => None,
    }
}

/// Compiles an expression.
///
/// Trusted: calls `Regex::new`, which builds with the crate's default limits
/// and so succeeds or fails on the pattern alone: that is the named
/// [`compiles`]. The crate keeps the string it was given, and `Regex::as_str`
/// hands it back. Which patterns compile is left to the crate.
#[verifier::external_body]
fn compile(pattern: &str) -> (r: Result<Regex, regex::Error>)
    ensures
        r is Ok <==> compiles(pattern@),
        r matches Ok(re) ==> pattern_of(re) == pattern@,
{
    Regex::new(pattern)
}

/// What the first capture group of an expression matched in a text.
///
/// Trusted: calls `Regex::captures`, then `Captures::get(1)` and
/// `Match::as_str`, and copies the substring. The search reads the expression
/// and the text and nothing else, so the result is the named function of the
/// two.
#[verifier::external_body]
fn capture_first(re: &Regex, text: &str) -> (r: Option<String>)
    ensures
        text_of(r) == first_group(*re, text@),
{
    re.captures(text).and_then(|caps| caps.get(1)).map(|m| m.as_str().to_string())
}

/// The two compiled expressions, made once and shared by every
/// classification.
pub struct Matchers {
    sequence: Regex,
    kind: Regex,
}

impl Matchers {
    #[verifier::type_invariant]
    spec fn made_from_the_patterns(self) -> bool {
        &&& pattern_of(self.sequence) == SEQVAL@
        &&& pattern_of(self.kind) == PACKETTYPE@
    }

    /// The compiled expression for the sequence field.
    pub closed spec fn sequence_matcher(self) -> Regex {
        self.sequence
    }

    /// The compiled expression for the type field.
    pub closed spec fn kind_matcher(self) -> Regex {
        self.kind
    }

    /// The digits that the sequence expression captures in a text.
    pub open spec fn spec_sequence_field(self, text: Seq<char>) -> Option<Seq<char>> {
        first_group(self.sequence_matcher(), text)
    }

    /// The word that the type expression captures in a text.
    pub open spec fn spec_kind_field(self, text: Seq<char>) -> Option<Seq<char>> {
        first_group(self.kind_matcher(), text)
    }

    /// Compiles both expressions. Succeeds exactly where both compile, and
    /// fails with the text of the crate's error where one of them does not.
    pub fn new() -> (r: Result<Matchers, String>)
        ensures
            r is Ok <==> compiles(SEQVAL@) && compiles(PACKETTYPE@),
            r matches Ok(matchers) ==> {
                &&& pattern_of(matchers.sequence_matcher()) == SEQVAL@
                &&& pattern_of(matchers.kind_matcher()) == PACKETTYPE@
            },
    {
        Matchers::from_compiled(compile(SEQVAL), compile(PACKETTYPE))
    }

    /// Puts the two compiled expressions together. Succeeds exactly where
    /// both compiled, and then holds the two as they are; otherwise fails
    /// with the text of the first error, the sequence expression's before the
    /// type expression's.
    fn from_compiled(sequence: Result<Regex, regex::Error>, kind: Result<Regex, regex::Error>) -> (r:
        Result<Matchers, String>)
        requires
            sequence matches Ok(re) ==> pattern_of(re) == SEQVAL@,
            kind matches Ok(re) ==> pattern_of(re) == PACKETTYPE@,
        ensures
            r is Ok <==> sequence is Ok && kind is Ok,
            r matches Ok(matchers) ==> {
                &&& sequence == Ok::<Regex, regex::Error>(matchers.sequence_matcher())
                &&& kind == Ok::<Regex, regex::Error>(matchers.kind_matcher())
                &&& pattern_of(matchers.sequence_matcher()) == SEQVAL@
                &&& pattern_of(matchers.kind_matcher()) == PACKETTYPE@
            },
    {
        let sequence = match sequence {
            Ok(re) => re,
            Err(e) => {
                return Err(err2str(&e));
            },
        };
        let kind = match kind {
            Ok(re) => re,
            Err(e) => {
                return Err(err2str(&e));
            },
        };
        Ok(Matchers { sequence, kind })
    }

    /// The digits of the sequence field of a text, where the sequence
    /// expression finds one.
    pub fn sequence_field(&self, text: &str) -> (field: Option<String>)
        ensures
            text_of(field) == self.spec_sequence_field(text@),
            pattern_of(self.sequence_matcher()) == SEQVAL@,
    {
        proof {
            use_type_invariant(self);
        }
        capture_first(&self.sequence, text)
    }

    /// The word of the type field of a text, where the type expression finds
    /// one.
    pub fn kind_field(&self, text: &str) -> (field: Option<String>)
        ensures
            text_of(field) == self.spec_kind_field(text@),
            pattern_of(self.kind_matcher()) == PACKETTYPE@,
    {
        proof {
            use_type_invariant(self);
        }
        capture_first(&self.kind, text)
    }
}

} // verus!
