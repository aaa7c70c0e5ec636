//! Identifiers of jobs. An identifier is a 128-bit value; as a text it is
//! written as a UUID, and that text names the file with the job's output.
use vstd::arithmetic::power::pow;
use vstd::prelude::*;

verus! {

/// The lower-case hexadecimal digit of a value below sixteen.
pub open spec fn hex_digit(n: int) -> char {
    seq!['0', '1', '2', '3', '4', '5', '6', '7', '8', '9', 'a', 'b', 'c', 'd', 'e', 'f'][n]
}

/// The `k`-th hexadecimal digit of a 128-bit value, counted from the most
/// significant one: `k` runs from 0 to 31.
pub open spec fn nibble(id: u128, k: int) -> int {
    (id as int / pow(16, (31 - k) as nat)) % 16
}

/// The hyphens that stand before position `i` of a hyphenated identifier.
pub open spec fn hyphens_before(i: int) -> int {
    if i < 8 {
        0
    } else if i < 13 {
        1
    } else if i < 18 {
        2
    } else if i < 23 {
        3
    } else {
        4
    }
}

/// An identifier written as a UUID: 32 lower-case hexadecimal digits, most
/// significant first, in groups of 8, 4, 4, 4 and 12 with a hyphen between.
pub open spec fn hyphenated(id: u128) -> Seq<char> {
    Seq::new(
        36,
        |i: int|
            if i == 8 || i == 13 || i == 18 || i == 23 {
                '-'
            } else {
                hex_digit(nibble(id, i - hyphens_before(i)))
            },
    )
}

/// The name of the file that receives the output of job `id`.
pub open spec fn output_name(id: u128) -> Seq<char> {
    hyphenated(id) + ".txt"@
}

/// `uuid::Uuid::from_u128` followed by the `Display` of `uuid::Uuid`, taken
/// on trust: the value read as a big-endian UUID, in the hyphenated
/// lower-case form.
#[verifier::external_body]
pub(crate) fn uuid_text(id: u128) -> (text: String)
    ensures
        text@ == hyphenated(id),
{
    uuid::Uuid::from_u128(id).to_string()
}

/// The name of the file that receives the output of job `id`: standard
/// output and standard error together, in the order in which they arrive.
pub fn output_file(id: u128) -> (name: String)
    ensures
        name@ == output_name(id),
{
    uuid_text(id).concat(".txt")
}

/// The identifier that a text denotes as a UUID, if it denotes one: what
/// `uuid::Uuid::parse_str` makes of the text, as a 128-bit value. The
/// parser takes the hyphenated form and several others, in either case of
/// the letters; they are not spelled out here.
pub uninterp spec fn parsed(text: Seq<char>) -> Option<u128>;

/// `uuid::Uuid::parse_str` followed by `uuid::Uuid::as_u128`, taken on
/// trust: the answer is the one that `parsed` names for this text, and
/// nothing where the parser refuses the text.
#[verifier::external_body]
fn parse_uuid(text: &str) -> (id: Option<u128>)
    ensures
        id == parsed(text@),
{
    match uuid::Uuid::parse_str(text) {
        Ok(id) => Some(id.as_u128()),
        Err(_) => None,
    }
}

/// The identifier of a job that is asked about: the one that the given
/// text denotes. Without a text, or with one that is no UUID, there is none.
pub fn existing_job_id(given: Option<&str>) -> (id: Option<u128>)
    ensures
        id == (match given {
            Some(text) => parsed(text@),
            None => None,
        }),
{
    match given {
        Some(text) => parse_uuid(text),
        None => None,
    }
}

/// The identifier for a job to start: the one that the given text denotes,
/// or `fresh` where no text is given or the text is no UUID.
pub fn new_job_id(given: Option<&str>, fresh: u128) -> (id: u128)
    ensures
        id == (match given {
            Some(text) => match parsed(text@) {
                Some(denoted) => denoted,
                None => fresh,
            },
            None => fresh,
        }),
{
    match existing_job_id(given) {
        Some(denoted) => denoted,
        None => fresh,
    }
}

} // verus!
