use vstd::prelude::*;

use crate::entity::FileEntity;
use crate::errors::ApplicationError;
use crate::repository::lists_entries;
use crate::source::{created_text, DynemicFileCreateDelete, DynemicFileRead};
use crate::text::valid_range;

verus! {

/// Reading a range gives exactly that range of the whole text: when
/// `get_slice(start, end)` returned `slice` and `get_content()` returned
/// `whole` on the same source, and `start <= end <= whole.len()`, the slice
/// is `whole` over `[start, end)`.
pub proof fn law_slice_of_content<S: DynemicFileRead>(
    source: S,
    start: usize,
    end: usize,
    slice: Result<String, ApplicationError>,
    whole: String,
)
    requires
        call_ensures(S::get_slice, (&source, start, end), slice),
        call_ensures(S::get_content, (&source,), whole),
        valid_range(whole@.len(), start as int, end as int),
    ensures
        slice matches Ok(s) && s@ == whole@.subrange(start as int, end as int),
{
}

/// Writing a text and reading it back gives that text: a source that a
/// successful `set_content(c)` left holding `c` (as that method ensures)
/// returns `c` from `get_content()`.
pub proof fn law_round_trip<S: DynemicFileRead>(after: S, c: String, read: String)
    requires
        after.text() == c@,
        call_ensures(S::get_content, (&after,), read),
    ensures
        read@ == c@,
{
}

/// Creating a medium twice is the same as creating it once: after two
/// successful `create_file` calls, from `first` to `second` to `third`, the
/// medium exists and holds what it held before the first call, or nothing if
/// it did not exist.
pub proof fn law_create_twice<S: DynemicFileCreateDelete>(first: S, second: S, third: S)
    requires
        second.is_materialized(),
        second.text() == created_text(first),
        third.is_materialized(),
        third.text() == created_text(second),
    ensures
        third.is_materialized(),
        third.text() == created_text(first),
        first.is_materialized() ==> third.text() == first.text(),
{
}

/// Changing one entity leaves every other one as it was: when the catalogue
/// goes from `before` to `before.insert(id, e)`, the entity under any other
/// identifier is the same before and after.
pub proof fn law_update_isolated<S>(
    before: Map<u128, FileEntity<S>>,
    id: u128,
    e: FileEntity<S>,
    other: u128,
)
    requires
        other != id,
    ensures
        before.insert(id, e).contains_key(other) == before.contains_key(other),
        before.contains_key(other) ==> before.insert(id, e)[other] == before[other],
{
}

/// Saving under an identifier already present replaces the entity: the
/// catalogue holds `file` under its identifier, and a listing after the save
/// is as long as one before it.
pub proof fn law_save_replaces<S: DynemicFileRead>(
    before: Map<u128, FileEntity<S>>,
    file: FileEntity<S>,
    listed_before: Seq<FileEntity<S>>,
    listed_after: Seq<FileEntity<S>>,
)
    requires
        before.contains_key(file.id),
        lists_entries(listed_before, before),
        lists_entries(listed_after, before.insert(file.id, file)),
    ensures
        before.insert(file.id, file)[file.id] == file,
        listed_after.len() == listed_before.len(),
{
    assert(before.insert(file.id, file).dom() =~= before.dom());
}

} // verus!
