use vstd::prelude::*;
use crate::task::Stamp;

verus! {

/// Why a piece of user input was rejected.
#[derive(Clone, Copy, Debug, PartialEq, Eq, Structural)]
pub enum InputError {
    /// The due date is not a `YYYY-MM-DD` calendar date.
    MalformedDate,
    /// The id is not a UUID.
    MalformedId,
}

#[verifier::external_type_specification]
#[verifier::external_body]
pub struct ExDateParseError(chrono::ParseError);

#[verifier::external_type_specification]
#[verifier::external_body]
pub struct ExUuidError(uuid::Error);

/// The instant, in whole seconds since the epoch, of midnight UTC on the
/// `YYYY-MM-DD` date that the text spells, if it spells one.
pub uninterp spec fn parsed_day(s: Seq<char>) -> Option<i64>;

/// The 128-bit value of the UUID that the text spells, if it spells one.
pub uninterp spec fn parsed_uuid(s: Seq<char>) -> Option<u128>;

/// The text without its leading and trailing white space.
pub uninterp spec fn trimmed_of(s: Seq<char>) -> Seq<char>;

/// The lowercase form of the text.
pub uninterp spec fn lower_of(s: Seq<char>) -> Seq<char>;

/// Relies on chrono::NaiveDate::parse_from_str with the format `%Y-%m-%d`;
/// the date is taken at midnight UTC, as seconds since the epoch.
#[verifier::external_body]
fn parse_day(s: &str) -> (r: Result<i64, chrono::ParseError>)
    ensures
        match r {
            Ok(secs) => parsed_day(s@) == Some(secs),
            Err(_) => parsed_day(s@) is None,
        },
{
    match chrono::NaiveDate::parse_from_str(s, "%Y-%m-%d") {
        Ok(d) => Ok(d.and_time(chrono::NaiveTime::MIN).and_utc().timestamp()),
        Err(e) => Err(e),
    }
}

/// Relies on uuid::Uuid::parse_str, taking the UUID as its 128-bit value.
#[verifier::external_body]
fn parse_uuid(s: &str) -> (r: Result<u128, uuid::Error>)
    ensures
        match r {
            Ok(v) => parsed_uuid(s@) == Some(v),
            Err(_) => parsed_uuid(s@) is None,
        },
{
    match uuid::Uuid::parse_str(s) {
        Ok(u) => Ok(u.as_u128()),
        Err(e) => Err(e),
    }
}

/// Relies on str::trim.
#[verifier::external_body]
fn trim(s: &str) -> (r: &str)
    ensures
        r@ == trimmed_of(s@),
{
    s.trim()
}

/// Relies on str::to_lowercase.
#[verifier::external_body]
fn lowercase(s: &str) -> (r: String)
    ensures
        r@ == lower_of(s@),
{
    s.to_lowercase()
}

/// Reads a due date written `YYYY-MM-DD`, as midnight UTC of that day.
pub fn parse_due(text: &str) -> (r: Result<Stamp, InputError>)
    ensures
        match parsed_day(text@) {
            Some(secs) => r == Ok::<Stamp, InputError>(Stamp { secs, nanos: 0 }),
            None => r == Err::<Stamp, InputError>(InputError::MalformedDate),
        },
{
    match parse_day(text) {
        Ok(secs) => Ok(Stamp { secs, nanos: 0 }),
        Err(_) => Err(InputError::MalformedDate),
    }
}

/// Reads a task id written as a UUID.
pub fn parse_id(text: &str) -> (r: Result<u128, InputError>)
    ensures
        match parsed_uuid(text@) {
            Some(id) => r == Ok::<u128, InputError>(id),
            None => r == Err::<u128, InputError>(InputError::MalformedId),
        },
{
    match parse_uuid(text) {
        Ok(id) => Ok(id),
        Err(_) => Err(InputError::MalformedId),
    }
}

/// Whether an answer, trimmed and in lowercase, is exactly `y`.
pub open spec fn is_confirmation(answer: Seq<char>) -> bool {
    lower_of(trimmed_of(answer)) == seq!['y']
}

/// Whether an answer already trimmed and put in lowercase is exactly `y`.
pub fn is_yes(folded: &str) -> (r: bool)
    ensures
        r == (folded@ == seq!['y']),
{
    if folded.unicode_len() == 1 && folded.get_char(0) == 'y' {
        assert(folded@ =~= seq!['y']);
        true
    } else {
        false
    }
}

/// Whether an answer to the reset prompt confirms it: a single `y` in either
/// case, with surrounding white space ignored.
pub fn confirms_reset(answer: &str) -> (r: bool)
    ensures
        r == is_confirmation(answer@),
{
    let trimmed = trim(answer);
    let folded = lowercase(trimmed);
    is_yes(folded.as_str())
}

} // verus!
