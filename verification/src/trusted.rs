use vstd::prelude::*;

verus! {

/// `regex::Regex`, a compiled regular expression. Nothing inside it is
/// visible here.
#[verifier::external_type_specification]
#[verifier::external_body]
pub struct ExRegex(regex::Regex);

/// `bson::oid::ObjectId`, the twelve bytes that identify a stored record.
/// Nothing inside it is visible here.
#[verifier::external_type_specification]
#[verifier::external_body]
pub struct ExObjectId(bson::oid::ObjectId);

/// `chrono_tz::Tz`, a time zone of the IANA database. Nothing inside it is
/// visible here.
#[verifier::external_type_specification]
#[verifier::external_body]
pub struct ExTz(chrono_tz::Tz);

/// The texts in which a compiled expression finds a match, at any place in
/// the text. This is what `regex::Regex::is_match` answers for the
/// expression, text by text; nothing more is known of the set.
pub uninterp spec fn matched_texts(expression: regex::Regex) -> Set<Seq<char>>;

/// Calls `regex::Regex::is_match`, which says whether the expression finds
/// a match anywhere in `text`. It searches from the start of the text and
/// does not panic.
///
/// Believed, not proved: the answer depends on the expression and on the
/// text alone, so it says whether the text is one of `matched_texts`.
#[verifier::external_body]
pub(crate) fn regex_is_match(expression: &regex::Regex, text: &str) -> (hit: bool)
    ensures
        hit == matched_texts(*expression).contains(text@),
{
    expression.is_match(text)
}

/// Calls `bson::oid::ObjectId::new`, which puts an identifier together from
/// the clock's seconds, five bytes drawn once in the life of the process,
/// and a counter. Nothing is claimed of the result.
///
/// The call panics where the system clock stands before 1970, or so late
/// that its seconds since then do not fit in 32 bits, and where the system
/// has no random bytes to give.
#[verifier::external_body]
pub(crate) fn fresh_object_id() -> (id: bson::oid::ObjectId) {
    bson::oid::ObjectId::new()
}

/// Calls `DateTime::now` of the `bson` that `mongodb` hands on, and reads
/// the result with `DateTime::timestamp_millis`: the milliseconds from the
/// start of 1970 to now by the system clock, negative before 1970, and held
/// to the range of `i64`. Nothing is claimed of the result, and the call
/// does not panic.
#[verifier::external_body]
pub(crate) fn now_millis() -> (millis: i64) {
    mongodb::bson::DateTime::now().timestamp_millis()
}

} // verus!
