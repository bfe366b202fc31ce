use vstd::arithmetic::power::pow;
use vstd::prelude::*;

verus! {

#[verifier::external_type_specification]
#[verifier::external_body]
pub struct ExIoError(std::io::Error);

/// Failures reported by the content sources, the repository and the use cases.
#[derive(Debug)]
pub enum ApplicationError {
    /// No entity is stored under the identifier (given in its hyphenated form).
    FileNotFound(String),
    /// The backing medium failed.
    IoError(std::io::Error),
    /// A range violates `start <= end <= length`; holds the offending end bound.
    InvalidRange(usize),
    /// Two different chunks of a text have the same hash, given here.
    HashCollision(u64),
}

/// The lowercase hexadecimal digit of a value below sixteen.
pub open spec fn hex_digit(n: int) -> char {
    if n < 10 {
        ((48 + n) as u8) as char
    } else {
        ((87 + n) as u8) as char
    }
}

/// Which of the 32 digits stands at position `i` of the hyphenated form,
/// whose dashes stand at 8, 13, 18 and 23.
pub open spec fn digit_position(i: int) -> int {
    if i < 8 {
        i
    } else if i < 13 {
        i - 1
    } else if i < 18 {
        i - 2
    } else if i < 23 {
        i - 3
    } else {
        i - 4
    }
}

/// The `k`-th hexadecimal digit of `id`, most significant first.
pub open spec fn nibble(id: u128, k: int) -> int {
    (id as int / pow(16, (31 - k) as nat)) % 16
}

/// The identifier written as 8-4-4-4-12 lowercase hexadecimal digits.
pub open spec fn hyphenated(id: u128) -> Seq<char> {
    Seq::new(
        36,
        |i: int|
            if i == 8 || i == 13 || i == 18 || i == 23 {
                '-'
            } else {
                hex_digit(nibble(id, digit_position(i)))
            },
    )
}

/// Relies on `uuid::Uuid::from_u128`, which takes the value's big-endian
/// bytes, and on the `Display` of `Uuid`, which writes the lowercase
/// hyphenated form.
#[verifier::external_body]
fn uuid_text(id: u128) -> (r: String)
    ensures
        r@ == hyphenated(id),
{
    uuid::Uuid::from_u128(id).to_string()
}

/// Whether `e` reports that nothing is stored under `id`.
pub open spec fn is_not_found(e: ApplicationError, id: u128) -> bool {
    e matches ApplicationError::FileNotFound(s) && s@ == hyphenated(id)
}

/// The error for an identifier under which nothing is stored.
pub fn not_found(id: u128) -> (e: ApplicationError)
    ensures
        is_not_found(e, id),
{
    ApplicationError::FileNotFound(uuid_text(id))
}

} // verus!
