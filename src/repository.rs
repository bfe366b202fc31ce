use std::collections::HashMap;

use vstd::prelude::*;
use vstd::std_specs::iter::IteratorSpec;

use crate::entity::{same_entity, FileEntity};
use crate::errors::{is_not_found, not_found, ApplicationError};
use crate::source::{DynemicFileCreateDelete, DynemicFileRead, DynemicFileWrite};

verus! {

broadcast use vstd::std_specs::hash::group_hash_axioms;

/// Whether every entity of `m` is stored under its own identifier.
pub open spec fn keyed_by_id<S>(m: Map<u128, FileEntity<S>>) -> bool {
    forall|k: u128| #[trigger] m.contains_key(k) ==> m[k].id == k
}

/// Whether `v` lists the entities of `m`, each once.
pub open spec fn lists_entries<S: DynemicFileRead>(
    v: Seq<FileEntity<S>>,
    m: Map<u128, FileEntity<S>>,
) -> bool {
    &&& v.len() == m.len()
    &&& forall|i: int|
        0 <= i < v.len() ==> m.contains_key(#[trigger] v[i].id) && same_entity(v[i], m[v[i].id])
    &&& forall|k: u128| #[trigger] m.contains_key(k) ==> exists|i: int| 0 <= i < v.len() && v[i].id == k
}

/// A catalogue of managed files keyed by identifier.
pub trait CodeFileRepository<S: DynemicFileRead + DynemicFileWrite + DynemicFileCreateDelete> {
    /// The stored entities by identifier.
    spec fn entries(&self) -> Map<u128, FileEntity<S>>;

    /// Stores `file` under its identifier, replacing what was there, and
    /// hands back a copy.
    fn save(&mut self, file: FileEntity<S>) -> (r: Result<FileEntity<S>, ApplicationError>)
        ensures
            final(self).entries() == old(self).entries().insert(file.id, file),
            r matches Ok(f) && same_entity(f, file),
    ;

    /// A copy of the entity stored under `id`.
    fn find_by_id(&self, id: u128) -> (r: Result<FileEntity<S>, ApplicationError>)
        ensures
            self.entries().contains_key(id) ==> (r matches Ok(f) && f.id == id && same_entity(
                f,
                self.entries()[id],
            )),
            !self.entries().contains_key(id) ==> (r matches Err(e) && is_not_found(e, id)),
    ;

    /// Replaces the entity stored under `file`'s identifier; never adds one.
    fn update(&mut self, file: FileEntity<S>) -> (r: Result<(), ApplicationError>)
        ensures
            old(self).entries().contains_key(file.id) ==> r is Ok && final(self).entries() == old(
                self,
            ).entries().insert(file.id, file),
            !old(self).entries().contains_key(file.id) ==> (r matches Err(e) && is_not_found(
                e,
                file.id,
            )) && final(self).entries() == old(self).entries(),
    ;

    /// Removes the entity stored under `id`.
    fn delete(&mut self, id: u128) -> (r: Result<(), ApplicationError>)
        ensures
            old(self).entries().contains_key(id) ==> r is Ok && final(self).entries() == old(
                self,
            ).entries().remove(id),
            !old(self).entries().contains_key(id) ==> (r matches Err(e) && is_not_found(e, id))
                && final(self).entries() == old(self).entries(),
    ;

    /// Copies of all stored entities, in no particular order.
    fn list(&self) -> (r: Result<Vec<FileEntity<S>>, ApplicationError>)
        ensures
            r matches Ok(v) && lists_entries(v@, self.entries()),
    ;
}

/// The catalogue held in a hash map in memory.
pub struct InMemoryCodeFileRepository<S> {
    storage: HashMap<u128, FileEntity<S>>,
}

impl<S> InMemoryCodeFileRepository<S> {
    #[verifier::type_invariant]
    spec fn well_keyed(self) -> bool {
        keyed_by_id(self.storage@)
    }
}

impl<S: DynemicFileRead + DynemicFileWrite + DynemicFileCreateDelete> InMemoryCodeFileRepository<S> {
    /// An empty catalogue.
    pub fn new() -> (r: Self)
        ensures
            r.entries() == Map::<u128, FileEntity<S>>::empty(),
    {
        InMemoryCodeFileRepository { storage: HashMap::new() }
    }

    /// Whether an entity is stored under `id`.
    pub fn contains(&self, id: u128) -> (r: bool)
        ensures
            r == self.entries().contains_key(id),
    {
        self.storage.contains_key(&id)
    }
}

impl<S: DynemicFileRead + DynemicFileWrite + DynemicFileCreateDelete> CodeFileRepository<
    S,
> for InMemoryCodeFileRepository<S> {
    closed spec fn entries(&self) -> Map<u128, FileEntity<S>> {
        self.storage@
    }

    fn save(&mut self, file: FileEntity<S>) -> (r: Result<FileEntity<S>, ApplicationError>) {
        let copy = file.duplicate();
        let id = file.id;
        proof {
            use_type_invariant(&*self);
        }
        let mut storage: HashMap<u128, FileEntity<S>> = HashMap::new();
        std::mem::swap(&mut self.storage, &mut storage);
        storage.insert(id, file);
        std::mem::swap(&mut self.storage, &mut storage);
        Ok(copy)
    }

    fn find_by_id(&self, id: u128) -> (r: Result<FileEntity<S>, ApplicationError>) {
        proof {
            use_type_invariant(self);
        }
        match self.storage.get(&id) {
            Some(f) => Ok(f.duplicate()),
            None => Err(not_found(id)),
        }
    }

    fn update(&mut self, file: FileEntity<S>) -> (r: Result<(), ApplicationError>) {
        if !self.storage.contains_key(&file.id) {
            return Err(not_found(file.id));
        }
        proof {
            use_type_invariant(&*self);
        }
        let mut storage: HashMap<u128, FileEntity<S>> = HashMap::new();
        std::mem::swap(&mut self.storage, &mut storage);
        storage.insert(file.id, file);
        std::mem::swap(&mut self.storage, &mut storage);
        Ok(())
    }

    fn delete(&mut self, id: u128) -> (r: Result<(), ApplicationError>) {
        proof {
            use_type_invariant(&*self);
        }
        let mut storage: HashMap<u128, FileEntity<S>> = HashMap::new();
        std::mem::swap(&mut self.storage, &mut storage);
        let removed = storage.remove(&id);
        std::mem::swap(&mut self.storage, &mut storage);
        match removed {
            Some(_) => Ok(()),
            None => Err(not_found(id)),
        }
    }

    fn list(&self) -> (r: Result<Vec<FileEntity<S>>, ApplicationError>) {
        proof {
            use_type_invariant(self);
        }
        let mut out: Vec<FileEntity<S>> = Vec::new();
        let values = self.storage.values();
        let ghost all = values.remaining();
        for f in it: values
            invariant
                it.seq() == all,
                out.len() == it.index(),
                forall|i: int| 0 <= i < out.len() ==> same_entity(#[trigger] out@[i], *all[i]),
        {
            out.push(f.duplicate());
        }
        assert(out.len() == all.len());
        proof {
            let m = self.storage@;
            assert(all.unref().to_set() == m.values());
            assert forall|i: int| 0 <= i < out.len() implies m.contains_key(
                #[trigger] out@[i].id,
            ) && same_entity(out@[i], m[out@[i].id]) by {
                assert(all.unref()[i] == *all[i]);
                assert(all.unref().to_set().contains(*all[i]));
                let k = choose|k: u128| m.contains_key(k) && m[k] == *all[i];
                assert(m[k].id == k);
            }
            assert forall|k: u128| #[trigger] m.contains_key(k) implies exists|i: int|
                0 <= i < out.len() && out@[i].id == k by {
                assert(m.values().contains(m[k]));
                assert(all.unref().to_set().contains(m[k]));
                let i = choose|i: int| 0 <= i < all.unref().len() && all.unref()[i] == m[k];
                assert(out@[i].id == k);
            }
        }
        Ok(out)
    }
}

} // verus!
