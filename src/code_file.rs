use std::collections::HashMap;

use vstd::prelude::*;

use crate::errors::ApplicationError;
use crate::text::{char_slice, chars_of, string_from_chars};

verus! {

broadcast use vstd::std_specs::hash::group_hash_axioms;

/// The number of characters in a chunk when none is given.
pub const DEFAULT_CONTENT_MAX_LENGTH: usize = 1000;

/// The hash that `FilePartialContent::evaluate_hash` gives a text.
pub uninterp spec fn text_hash(s: Seq<char>) -> u64;

/// Relies on `BuildHasher::hash_one` of `BuildHasherDefault<DefaultHasher>`
/// over the UTF-8 bytes of `s`: every `DefaultHasher::new()` starts alike, so
/// the hash depends on the text alone.
#[verifier::external_body]
fn hash_text(s: &str) -> (r: u64)
    ensures
        r == text_hash(s@),
{
    std::hash::BuildHasher::hash_one(
        &std::hash::BuildHasherDefault::<std::hash::DefaultHasher>::default(),
        s.as_bytes(),
    )
}

/// The consecutive chunks of at most `len` characters that `text` splits into.
pub open spec fn chunks_of(text: Seq<char>, len: nat) -> Seq<Seq<char>>
    decreases text.len(),
{
    if len == 0 || text.len() == 0 {
        Seq::empty()
    } else if text.len() <= len {
        seq![text]
    } else {
        seq![text.take(len as int)] + chunks_of(text.skip(len as int), len)
    }
}

/// Chunks keyed by their hash, inserted in order: a later chunk with the same
/// hash replaces an earlier one.
pub open spec fn chunk_index(chunks: Seq<Seq<char>>) -> Map<u64, Seq<char>>
    decreases chunks.len(),
{
    if chunks.len() == 0 {
        Map::empty()
    } else {
        chunk_index(chunks.drop_last()).insert(text_hash(chunks.last()), chunks.last())
    }
}

/// Whether no two different chunks have the same hash.
pub open spec fn collision_free(chunks: Seq<Seq<char>>) -> bool {
    forall|i: int, j: int|
        0 <= i < chunks.len() && 0 <= j < chunks.len() && #[trigger] text_hash(chunks[i])
            == #[trigger] text_hash(chunks[j]) ==> chunks[i] == chunks[j]
}

/// Every chunk's hash is a key of the index, and every key holds a chunk
/// with that hash.
proof fn lemma_chunk_index(cs: Seq<Seq<char>>)
    ensures
        forall|j: int| 0 <= j < cs.len() ==> chunk_index(cs).contains_key(#[trigger] text_hash(cs[j])),
        forall|k: u64| #[trigger]
            chunk_index(cs).contains_key(k) ==> exists|i: int|
                0 <= i < cs.len() && text_hash(cs[i]) == k && cs[i] == chunk_index(cs)[k],
    decreases cs.len(),
{
    if cs.len() > 0 {
        let init = cs.drop_last();
        lemma_chunk_index(init);
        assert forall|j: int| 0 <= j < cs.len() implies chunk_index(cs).contains_key(
            #[trigger] text_hash(cs[j]),
        ) by {
            if j < cs.len() - 1 {
                assert(cs[j] == init[j]);
            }
        }
        assert forall|k: u64| #[trigger] chunk_index(cs).contains_key(k) implies exists|i: int|
            0 <= i < cs.len() && text_hash(cs[i]) == k && cs[i] == chunk_index(cs)[k] by {
            if k == text_hash(cs.last()) {
                assert(cs[cs.len() - 1] == cs.last());
            } else {
                let i = choose|i: int|
                    0 <= i < init.len() && text_hash(init[i]) == k && init[i] == chunk_index(
                        init,
                    )[k];
                assert(cs[i] == init[i]);
            }
        }
    }
}

/// A piece of a file's text together with the hash of that text.
pub struct FilePartialContent {
    hash: u64,
    content: String,
}

impl View for FilePartialContent {
    type V = Seq<char>;

    closed spec fn view(&self) -> Seq<char> {
        self.content@
    }
}

impl FilePartialContent {
    #[verifier::type_invariant]
    spec fn hash_matches(self) -> bool {
        self.hash == text_hash(self.content@)
    }

    /// A chunk holding `content`.
    pub fn new(content: String) -> (r: Self)
        ensures
            r@ == content@,
    {
        let hash = FilePartialContent::evaluate_hash(content.as_str());
        FilePartialContent { hash, content }
    }

    /// The hash of a text.
    pub fn evaluate_hash(content: &str) -> (r: u64)
        ensures
            r == text_hash(content@),
    {
        hash_text(content)
    }

    /// The hash of the chunk's text.
    pub fn get_hash(&self) -> (r: u64)
        ensures
            r == text_hash(self@),
    {
        proof {
            use_type_invariant(self);
        }
        self.hash
    }

    /// The chunk's text.
    pub fn get_content(&self) -> (r: &str)
        ensures
            r@ == self@,
    {
        self.content.as_str()
    }

    /// Replaces the chunk's text; the hash follows.
    pub fn set_content(&mut self, content: String)
        ensures
            final(self)@ == content@,
    {
        let hash = FilePartialContent::evaluate_hash(content.as_str());
        *self = FilePartialContent { hash, content };
    }

    /// The chunk holding this chunk's text followed by `other`'s, hashed anew.
    pub fn merge(&self, other: &FilePartialContent) -> (r: FilePartialContent)
        ensures
            r@ == self@ + other@,
    {
        let mut chars = chars_of(self.content.as_str());
        let mut tail = chars_of(other.content.as_str());
        chars.append(&mut tail);
        FilePartialContent::new(string_from_chars(chars.as_slice()))
    }
}

impl Clone for FilePartialContent {
    fn clone(&self) -> (r: Self)
        ensures
            r@ == self@,
    {
        proof {
            use_type_invariant(self);
        }
        FilePartialContent { hash: self.hash, content: self.content.clone() }
    }
}

/// A file's text held as chunks keyed by their hash.
pub struct CodeFile {
    pub name: String,
    pub content: HashMap<u64, FilePartialContent>,
}

/// Whether `m` holds exactly the chunks of `index`, each under its own key.
pub open spec fn holds_chunks(m: Map<u64, FilePartialContent>, index: Map<u64, Seq<char>>) -> bool {
    &&& m.dom() == index.dom()
    &&& forall|k: u64| #[trigger] m.contains_key(k) ==> m[k]@ == index[k]
}

impl CodeFile {
    /// Splits `content` into chunks of the default length; fails when two
    /// different chunks have the same hash.
    pub fn new(name: String, content: String) -> (r: Result<Self, ApplicationError>)
        ensures
            r is Ok <==> collision_free(chunks_of(content@, DEFAULT_CONTENT_MAX_LENGTH as nat)),
            r matches Ok(f) ==> f.name@ == name@ && holds_chunks(
                f.content@,
                chunk_index(chunks_of(content@, DEFAULT_CONTENT_MAX_LENGTH as nat)),
            ),
            r matches Err(e) ==> e is HashCollision,
    {
        CodeFile::new_with_chunk_len(name, content, DEFAULT_CONTENT_MAX_LENGTH)
    }

    /// Splits `content` into consecutive chunks of `chunk_len` characters (the
    /// last one possibly shorter), each stored under its hash. Equal chunks
    /// share one entry; two different chunks with the same hash are reported
    /// as a collision.
    pub fn new_with_chunk_len(name: String, content: String, chunk_len: usize) -> (r: Result<
        Self,
        ApplicationError,
    >)
        requires
            chunk_len > 0,
        ensures
            r is Ok <==> collision_free(chunks_of(content@, chunk_len as nat)),
            r matches Ok(f) ==> f.name@ == name@ && holds_chunks(
                f.content@,
                chunk_index(chunks_of(content@, chunk_len as nat)),
            ),
            r matches Err(e) ==> e is HashCollision,
    {
        let ghost chunks = chunks_of(content@, chunk_len as nat);
        let n = chars_of(content.as_str()).len();
        let mut parts: HashMap<u64, FilePartialContent> = HashMap::new();
        let ghost mut done: Seq<Seq<char>> = Seq::empty();
        let mut start: usize = 0;
        proof {
            assert(content@.skip(0) =~= content@);
            assert(done + chunks =~= chunks);
        }
        while start < n
            invariant
                n == content@.len(),
                start <= n,
                chunk_len > 0,
                chunks == chunks_of(content@, chunk_len as nat),
                done + chunks_of(content@.skip(start as int), chunk_len as nat) == chunks,
                holds_chunks(parts@, chunk_index(done)),
                collision_free(done),
            decreases n - start,
        {
            let end = if n - start < chunk_len {
                n
            } else {
                start + chunk_len
            };
            let piece = match char_slice(content.as_str(), start, end) {
                Ok(s) => s,
                Err(_) => String::new(),
            };
            let part = FilePartialContent::new(piece);
            let key = part.get_hash();
            let ghost rest = content@.skip(start as int);
            proof {
                assert(part@ == chunks_of(rest, chunk_len as nat)[0]) by {
                    if rest.len() <= chunk_len {
                        assert(rest =~= content@.subrange(start as int, end as int));
                    } else {
                        assert(rest.take(chunk_len as int) =~= content@.subrange(
                            start as int,
                            end as int,
                        ));
                    }
                }
                assert(chunks[done.len() as int] == part@);
                assert forall|i: int| 0 <= i < done.len() implies chunks[i] == done[i] by {
                    assert((done + chunks_of(rest, chunk_len as nat))[i] == done[i]);
                }
                lemma_chunk_index(done);
            }
            let clash = match parts.get(&key) {
                Some(existing) => !(existing.content == part.content),
                None => false,
            };
            if clash {
                proof {
                    let i = choose|i: int|
                        0 <= i < done.len() && text_hash(done[i]) == key && done[i] == chunk_index(
                            done,
                        )[key];
                    assert(text_hash(chunks[i]) == text_hash(chunks[done.len() as int]));
                    assert(chunks[i] != chunks[done.len() as int]);
                }
                return Err(ApplicationError::HashCollision(key));
            }
            proof {
                if rest.len() > chunk_len {
                    assert(rest.skip(chunk_len as int) =~= content@.skip(end as int));
                } else {
                    assert(content@.skip(end as int) =~= Seq::<char>::empty());
                }
                let d2 = done.push(part@);
                assert(d2.drop_last() =~= done);
                assert(d2 + chunks_of(content@.skip(end as int), chunk_len as nat) =~= done
                    + chunks_of(rest, chunk_len as nat));
                assert forall|i: int, j: int|
                    0 <= i < d2.len() && 0 <= j < d2.len() && #[trigger] text_hash(d2[i])
                        == #[trigger] text_hash(d2[j]) implies d2[i] == d2[j] by {
                    if i < done.len() && j == done.len() {
                        assert(d2[i] == done[i]);
                        assert(chunk_index(done).contains_key(text_hash(done[i])));
                    } else if j < done.len() && i == done.len() {
                        assert(d2[j] == done[j]);
                        assert(chunk_index(done).contains_key(text_hash(done[j])));
                    } else if i < done.len() && j < done.len() {
                        assert(d2[i] == done[i] && d2[j] == done[j]);
                    }
                }
                done = d2;
            }
            parts.insert(key, part);
            start = end;
        }
        proof {
            assert(content@.skip(start as int) =~= Seq::<char>::empty());
            assert(done =~= chunks);
        }
        Ok(CodeFile { name, content: parts })
    }
}

} // verus!
