use vstd::prelude::*;

use crate::errors::ApplicationError;
use crate::text::{char_slice, is_range_error, splice_text, spliced, valid_range};

verus! {

/// Reading a medium's text by character ranges.
pub trait DynemicFileRead: Sized {
    /// The text the medium currently holds; empty while nothing is
    /// materialized.
    spec fn text(&self) -> Seq<char>;

    /// Whether the medium currently exists.
    spec fn is_materialized(&self) -> bool;

    /// Another source over the same medium, in the same state.
    fn duplicate(&self) -> (r: Self)
        ensures
            r.text() == self.text(),
            r.is_materialized() == self.is_materialized(),
    ;

    /// The characters over `[start, end)`, or `InvalidRange(end)` when the
    /// range is not within the text.
    fn get_slice(&self, start: usize, end: usize) -> (r: Result<String, ApplicationError>)
        ensures
            valid_range(self.text().len(), start as int, end as int) ==> (r matches Ok(s) && s@
                == self.text().subrange(start as int, end as int)),
            !valid_range(self.text().len(), start as int, end as int) ==> (r matches Err(e)
                && is_range_error(e, end)),
    ;

    /// The whole text.
    fn get_content(&self) -> (r: String)
        ensures
            r@ == self.text(),
    ;
}

/// Writing a medium's text, whole or by character ranges.
pub trait DynemicFileWrite: DynemicFileRead {
    /// Replaces the characters over `[start, end)` by `content`.
    fn set_slice(&mut self, start: usize, end: usize, content: String) -> (r: Result<
        (),
        ApplicationError,
    >)
        ensures
            !valid_range(old(self).text().len(), start as int, end as int) ==> (r matches Err(e)
                && is_range_error(e, end) && final(self).text() == old(self).text()),
            valid_range(old(self).text().len(), start as int, end as int) ==> (r is Ok
                || r->Err_0 is IoError),
            r is Ok ==> valid_range(old(self).text().len(), start as int, end as int)
                && final(self).text() == spliced(
                old(self).text(),
                start as int,
                end as int,
                content@,
            ),
    ;

    /// Replaces the whole text by `content`.
    fn set_content(&mut self, content: String) -> (r: Result<(), ApplicationError>)
        ensures
            r is Ok || r->Err_0 is IoError,
            r is Ok ==> final(self).text() == content@,
    ;
}

/// The text a medium holds once `create_file` has succeeded on it: what it
/// held if it existed, else nothing.
pub open spec fn created_text<S: DynemicFileRead>(source: S) -> Seq<char> {
    if source.is_materialized() {
        source.text()
    } else {
        Seq::empty()
    }
}

/// Bringing the medium into being and removing it.
pub trait DynemicFileCreateDelete: DynemicFileRead {
    /// Makes the medium exist, empty if it did not exist and untouched if it did.
    fn create_file(&mut self) -> (r: Result<(), std::io::Error>)
        ensures
            r is Ok ==> final(self).is_materialized() && final(self).text() == (if old(
                self,
            ).is_materialized() {
                old(self).text()
            } else {
                Seq::<char>::empty()
            }),
    ;

    /// Removes the medium; fails when it does not exist.
    fn delete_file(&mut self) -> (r: Result<(), std::io::Error>)
        ensures
            !old(self).is_materialized() ==> r is Err,
            r is Ok ==> !final(self).is_materialized() && final(self).text() == Seq::<
                char,
            >::empty(),
    ;
}

/// Relies on `std::io::Error::from` with `ErrorKind::NotFound`.
#[verifier::external_body]
fn not_found_error() -> std::io::Error {
    std::io::Error::from(std::io::ErrorKind::NotFound)
}

/// A medium held in memory: absent, or present with its text.
pub struct InMemorySource {
    data: Option<String>,
}

impl InMemorySource {
    /// A source whose medium does not exist yet.
    pub fn new() -> (r: Self)
        ensures
            !r.is_materialized(),
            r.text() == Seq::<char>::empty(),
    {
        InMemorySource { data: None }
    }

    /// A source whose medium exists and holds `content`.
    pub fn with_content(content: String) -> (r: Self)
        ensures
            r.is_materialized(),
            r.text() == content@,
    {
        InMemorySource { data: Some(content) }
    }
}

impl Clone for InMemorySource {
    fn clone(&self) -> (r: Self)
        ensures
            r == *self,
    {
        match &self.data {
            Some(s) => InMemorySource { data: Some(s.clone()) },
            None => InMemorySource { data: None },
        }
    }
}

impl DynemicFileRead for InMemorySource {
    closed spec fn text(&self) -> Seq<char> {
        match self.data {
            Some(s) => s@,
            None => Seq::empty(),
        }
    }

    closed spec fn is_materialized(&self) -> bool {
        self.data is Some
    }

    fn duplicate(&self) -> (r: Self) {
        self.clone()
    }

    fn get_slice(&self, start: usize, end: usize) -> (r: Result<String, ApplicationError>) {
        match &self.data {
            Some(s) => char_slice(s.as_str(), start, end),
            None => {
                proof {
                    reveal_strlit("");
                }
                char_slice("", start, end)
            },
        }
    }

    fn get_content(&self) -> (r: String) {
        match &self.data {
            Some(s) => s.clone(),
            None => String::new(),
        }
    }
}

impl DynemicFileWrite for InMemorySource {
    fn set_slice(&mut self, start: usize, end: usize, content: String) -> (r: Result<
        (),
        ApplicationError,
    >)
        ensures
            valid_range(old(self).text().len(), start as int, end as int) ==> r is Ok,
    {
        let current = self.get_content();
        match splice_text(current.as_str(), start, end, content.as_str()) {
            Ok(next) => self.set_content(next),
            Err(e) => Err(e),
        }
    }

    fn set_content(&mut self, content: String) -> (r: Result<(), ApplicationError>)
        ensures
            r is Ok,
    {
        self.data = Some(content);
        Ok(())
    }
}

impl DynemicFileCreateDelete for InMemorySource {
    fn create_file(&mut self) -> (r: Result<(), std::io::Error>)
        ensures
            r is Ok,
    {
        if self.data.is_none() {
            self.data = Some(String::new());
        }
        Ok(())
    }

    fn delete_file(&mut self) -> (r: Result<(), std::io::Error>)
        ensures
            r is Err <==> !old(self).is_materialized(),
    {
        if self.data.is_none() {
            return Err(not_found_error());
        }
        self.data = None;
        Ok(())
    }
}

} // verus!
