use vstd::prelude::*;

use vstd::std_specs::iter::IteratorSpec;
use vstd::utf8::{decode_utf8, valid_utf8};

use crate::errors::ApplicationError;

verus! {

/// The characters of `text` over `[start, end)` replaced by `content`.
pub open spec fn spliced(text: Seq<char>, start: int, end: int, content: Seq<char>) -> Seq<char> {
    text.subrange(0, start) + content + text.subrange(end, text.len() as int)
}

/// Whether `[start, end)` is a range of character positions of a text of length `len`.
pub open spec fn valid_range(len: nat, start: int, end: int) -> bool {
    0 <= start <= end <= len
}

/// Relies on `String::from_iter` over `&char` items: the string holds the characters in order.
#[verifier::external_body]
pub(crate) fn string_from_chars(chars: &[char]) -> (r: String)
    ensures
        r@ == chars@,
{
    String::from_iter(chars)
}

/// The characters of `s`, in order.
pub fn chars_of(s: &str) -> (r: Vec<char>)
    ensures
        r@ == s@,
{
    broadcast use vstd::string::group_string_axioms;
    let mut out: Vec<char> = Vec::new();
    let mut it = s.chars();
    loop
        invariant
            it.obeys_prophetic_iter_laws(),
            it.decrease() is Some,
            out@ + it.remaining() == s@,
        ensures
            out@ == s@,
        decreases it.decrease()->0,
    {
        match it.next() {
            Some(c) => {
                out.push(c);
            },
            None => {
                assert(out@ =~= s@);
                break;
            },
        }
    }
    out
}

/// What `String::from_utf8_lossy` makes of a byte sequence.
pub uninterp spec fn lossy_text(bytes: Seq<u8>) -> Seq<char>;

/// Relies on `String::from_utf8_lossy`: valid UTF-8 is decoded as it is, and
/// every invalid sequence becomes a replacement character.
#[verifier::external_body]
fn decode_lossy(bytes: &[u8]) -> (r: String)
    ensures
        r@ == lossy_text(bytes@),
        valid_utf8(bytes@) ==> r@ == decode_utf8(bytes@),
{
    String::from_utf8_lossy(bytes).into_owned()
}

/// Whether `e` reports the range bound `bound` as invalid.
pub open spec fn is_range_error(e: ApplicationError, bound: usize) -> bool {
    e matches ApplicationError::InvalidRange(b) && b == bound
}

/// Appends `src[from..to]` to `out`.
fn push_range(out: &mut Vec<char>, src: &Vec<char>, from: usize, to: usize)
    requires
        from <= to <= src@.len(),
    ensures
        final(out)@ == old(out)@ + src@.subrange(from as int, to as int),
{
    let ghost start = out@;
    let mut i: usize = from;
    while i < to
        invariant
            from <= i <= to <= src@.len(),
            out@ == start + src@.subrange(from as int, i as int),
        decreases to - i,
    {
        out.push(src[i]);
        i = i + 1;
        assert(out@ =~= start + src@.subrange(from as int, i as int));
    }
}

/// The characters of `text` over `[start, end)`.
///
/// Positions count characters, not bytes, so a range never splits a
/// multi-byte character.
pub fn char_slice(text: &str, start: usize, end: usize) -> (r: Result<String, ApplicationError>)
    ensures
        valid_range(text@.len(), start as int, end as int) ==> (r matches Ok(s) && s@
            == text@.subrange(start as int, end as int)),
        !valid_range(text@.len(), start as int, end as int) ==> (r matches Err(e)
            && is_range_error(e, end)),
{
    let chars = chars_of(text);
    if start > end || end > chars.len() {
        return Err(ApplicationError::InvalidRange(end));
    }
    let mut out: Vec<char> = Vec::new();
    push_range(&mut out, &chars, start, end);
    assert(out@ =~= text@.subrange(start as int, end as int));
    Ok(string_from_chars(out.as_slice()))
}

/// `text` with the characters over `[start, end)` replaced by `content`.
///
/// With `start == end` this inserts, with an empty `content` it deletes.
pub fn splice_text(text: &str, start: usize, end: usize, content: &str) -> (r: Result<
    String,
    ApplicationError,
>)
    ensures
        valid_range(text@.len(), start as int, end as int) ==> (r matches Ok(s) && s@
            == spliced(text@, start as int, end as int, content@)),
        !valid_range(text@.len(), start as int, end as int) ==> (r matches Err(e)
            && is_range_error(e, end)),
{
    let chars = chars_of(text);
    if start > end || end > chars.len() {
        return Err(ApplicationError::InvalidRange(end));
    }
    let inserted = chars_of(content);
    let mut out: Vec<char> = Vec::new();
    push_range(&mut out, &chars, 0, start);
    push_range(&mut out, &inserted, 0, inserted.len());
    push_range(&mut out, &chars, end, chars.len());
    assert(inserted@.subrange(0, inserted@.len() as int) =~= content@);
    assert(out@ =~= spliced(text@, start as int, end as int, content@));
    Ok(string_from_chars(out.as_slice()))
}

/// The text that a byte buffer holds, decoded leniently.
pub fn text_of_bytes(bytes: &[u8]) -> (r: String)
    ensures
        r@ == lossy_text(bytes@),
        valid_utf8(bytes@) ==> r@ == decode_utf8(bytes@),
{
    decode_lossy(bytes)
}

/// The characters over `[start, end)` of the text that a byte buffer holds.
pub fn slice_of_bytes(bytes: &[u8], start: usize, end: usize) -> (r: Result<
    String,
    ApplicationError,
>)
    ensures
        valid_range(lossy_text(bytes@).len(), start as int, end as int) ==> (r matches Ok(s)
            && s@ == lossy_text(bytes@).subrange(start as int, end as int)),
        !valid_range(lossy_text(bytes@).len(), start as int, end as int) ==> (r matches Err(e)
            && is_range_error(e, end)),
{
    let text = decode_lossy(bytes);
    char_slice(text.as_str(), start, end)
}

} // verus!
