//! The calls into outside crates, and what is taken on trust about them.

use vstd::prelude::*;

use crate::text::decimal;

verus! {

/// A JSON value of `serde_json`; opaque here, read through the functions below.
#[verifier::external_type_specification]
#[verifier::external_body]
pub struct ExValue(serde_json::Value);

/// A parsed version of `semver`; opaque here, compared through the function below.
#[verifier::external_type_specification]
#[verifier::external_body]
pub struct ExVersion(semver::Version);

/// What `serde_json::from_str` makes of a text: a value, or the message of its error.
pub uninterp spec fn parsed_json(text: Seq<char>) -> Result<serde_json::Value, Seq<char>>;

/// What `serde_json::Value::get` finds in a value under a key.
pub uninterp spec fn json_member(value: serde_json::Value, key: Seq<char>) -> Option<serde_json::Value>;

/// What `serde_json::Value::as_str` gives for a value.
pub uninterp spec fn json_text(value: serde_json::Value) -> Option<Seq<char>>;

/// What `serde_json::Value::as_array` gives for a value.
pub uninterp spec fn json_items(value: serde_json::Value) -> Option<Seq<serde_json::Value>>;

/// What `semver::Version::parse` makes of a text.
pub uninterp spec fn parsed_version(text: Seq<char>) -> Option<semver::Version>;

/// Whether `semver::Version` orders the first version above the second.
pub uninterp spec fn version_above(a: semver::Version, b: semver::Version) -> bool;

/// The fields `major`, `minor` and `patch` of a version.
pub uninterp spec fn version_numbers(version: semver::Version) -> (u64, u64, u64);

/// The field `pre` of a version as text: its pre-release identifier, empty where it has none.
pub uninterp spec fn version_prerelease(version: semver::Version) -> Seq<char>;

/// The text of a version that has numbers alone, such as `1.20.3`.
pub open spec fn release_text(numbers: (u64, u64, u64)) -> Seq<char> {
    decimal(numbers.0 as nat) + "."@ + decimal(numbers.1 as nat) + "."@ + decimal(numbers.2 as nat)
}

/// The text of a pre-release of a version, such as `1.20.3-rc.6`; `pre` is what follows the hyphen.
pub open spec fn prerelease_text(numbers: (u64, u64, u64), pre: Seq<char>) -> Seq<char> {
    release_text(numbers) + "-"@ + pre
}

/// At least one character, and every one an ASCII letter.
pub open spec fn all_letters(s: Seq<char>) -> bool {
    &&& s.len() > 0
    &&& forall|i: int|
        0 <= i < s.len() ==> ('a' <= #[trigger] s[i] <= 'z' || 'A' <= s[i] <= 'Z')
}

/// A word and a count, such as `rc.6`.
pub open spec fn counted(word: Seq<char>, count: u64) -> Seq<char> {
    word + "."@ + decimal(count as nat)
}

/// The first triple is above the second, compared from left to right.
pub open spec fn numbers_above(a: (u64, u64, u64), b: (u64, u64, u64)) -> bool {
    ||| a.0 > b.0
    ||| a.0 == b.0 && a.1 > b.1
    ||| a.0 == b.0 && a.1 == b.1 && a.2 > b.2
}

/// `serde_json::from_str` on a text, as a `serde_json::Value`; an error is turned into its
/// message. Trusted: the outcome depends on the text alone.
#[verifier::external_body]
pub(crate) fn parse_json(text: &str) -> (r: Result<serde_json::Value, String>)
    ensures
        match r {
            Ok(value) => parsed_json(text@) == Ok::<serde_json::Value, Seq<char>>(value),
            Err(message) => parsed_json(text@) == Err::<serde_json::Value, Seq<char>>(message@),
        },
{
    match serde_json::from_str(text) {
        Ok(value) => Ok(value),
        Err(error) => Err(error.to_string()),
    }
}

/// `serde_json::Value::get` with a string key. Trusted: what is found depends on the value and
/// the key alone.
#[verifier::external_body]
pub(crate) fn json_get<'a>(value: &'a serde_json::Value, key: &str) -> (r: Option<
    &'a serde_json::Value,
>)
    ensures
        match r {
            Some(member) => json_member(*value, key@) == Some(*member),
            None => json_member(*value, key@) is None,
        },
{
    value.get(key)
}

/// `serde_json::Value::as_str`. Trusted: the outcome depends on the value alone.
#[verifier::external_body]
pub(crate) fn json_as_str(value: &serde_json::Value) -> (r: Option<&str>)
    ensures
        match r {
            Some(text) => json_text(*value) == Some(text@),
            None => json_text(*value) is None,
        },
{
    value.as_str()
}

/// `serde_json::Value::as_array`. Trusted: the outcome depends on the value alone.
#[verifier::external_body]
pub(crate) fn json_as_array(value: &serde_json::Value) -> (r: Option<&Vec<serde_json::Value>>)
    ensures
        match r {
            Some(items) => json_items(*value) == Some(items@),
            None => json_items(*value) is None,
        },
{
    value.as_array()
}

/// `semver::Version::parse`; the reason of a failure is dropped. Trusted: the outcome depends on
/// the text alone; `major.minor.patch` in decimal notation parses to those numbers without a
/// pre-release; what parses and has a hyphen behind those numbers is a pre-release of them; and a
/// word of letters, a dot and a count behind that hyphen parse, and are that pre-release.
#[verifier::external_body]
pub(crate) fn parse_version(text: &str) -> (r: Option<semver::Version>)
    ensures
        r == parsed_version(text@),
        forall|n: (u64, u64, u64)|
            text@ == #[trigger] release_text(n) ==> r is Some && version_numbers(r->0) == n
                && version_prerelease(r->0).len() == 0,
        forall|n: (u64, u64, u64), pre: Seq<char>|
            r is Some && text@ == #[trigger] prerelease_text(n, pre) ==> version_numbers(r->0) == n
                && version_prerelease(r->0).len() > 0,
        forall|n: (u64, u64, u64), word: Seq<char>, count: u64|
            all_letters(word) && text@ == #[trigger] prerelease_text(n, counted(word, count)) ==> r
                is Some && version_prerelease(r->0) == counted(word, count),
{
    match semver::Version::parse(text) {
        Ok(version) => Some(version),
        Err(_) => None,
    }
}

/// `>` between two versions of `semver`. Trusted: the outcome depends on the two versions alone
/// and never holds both ways round; numbers decide first, and with equal numbers a version
/// without a pre-release is above one with, and of two pre-releases with the same word of letters
/// and different counts the one with the higher count is above.
#[verifier::external_body]
pub(crate) fn version_greater(a: &semver::Version, b: &semver::Version) -> (r: bool)
    ensures
        r == version_above(*a, *b),
        r ==> !version_above(*b, *a),
        version_numbers(*a) != version_numbers(*b) ==> r == numbers_above(
            version_numbers(*a),
            version_numbers(*b),
        ),
        version_numbers(*a) == version_numbers(*b) && (version_prerelease(*a).len() == 0) != (
        version_prerelease(*b).len() == 0) ==> r == (version_prerelease(*a).len() == 0),
        forall|word: Seq<char>, i: u64, j: u64|
            version_numbers(*a) == version_numbers(*b) && all_letters(word) && i != j
                && version_prerelease(*a) == #[trigger] counted(word, i) && version_prerelease(*b)
                == #[trigger] counted(word, j) ==> r == (i > j),
{
    a > b
}

} // verus!
