use vstd::prelude::*;

use crate::source::DynemicFileRead;

verus! {

/// A managed file: a stable identifier, a display name and the medium that
/// holds its text, owned by the file alone.
pub struct FileEntity<S> {
    pub id: u128,
    pub name: String,
    pub source: S,
}

/// Whether two entities carry the same identifier, name and medium state.
pub open spec fn same_entity<S: DynemicFileRead>(a: FileEntity<S>, b: FileEntity<S>) -> bool {
    &&& a.id == b.id
    &&& a.name@ == b.name@
    &&& a.source.text() == b.source.text()
    &&& a.source.is_materialized() == b.source.is_materialized()
}

impl<S: DynemicFileRead> FileEntity<S> {
    /// An entity of the given parts.
    pub fn new(id: u128, name: String, source: S) -> (r: Self)
        ensures
            r.id == id,
            r.name == name,
            r.source == source,
    {
        FileEntity { id, name, source }
    }

    /// The identifier.
    pub fn id(&self) -> (r: u128)
        ensures
            r == self.id,
    {
        self.id
    }

    /// A copy with the same identifier, name and text.
    pub fn duplicate(&self) -> (r: Self)
        ensures
            same_entity(r, *self),
    {
        let source = self.source.duplicate();
        FileEntity { id: self.id, name: self.name.clone(), source }
    }
}

} // verus!
