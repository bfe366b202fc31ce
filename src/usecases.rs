use vstd::prelude::*;

use crate::dto::{
    full_viewport, CodeFileResponse, CreateCodeFileRequest, UpdateCodeRequest, ViewportRequest,
};
use crate::entity::FileEntity;
use crate::errors::{is_not_found, ApplicationError};
use crate::repository::{CodeFileRepository, InMemoryCodeFileRepository};
use crate::source::{created_text, DynemicFileCreateDelete, DynemicFileRead, DynemicFileWrite};
use crate::text::{chars_of, is_range_error, spliced, valid_range};

verus! {

/// The entity operations offered to an application: create, read, range
/// write and delete.
pub trait CodeFileUsecases<S: DynemicFileRead + DynemicFileWrite + DynemicFileCreateDelete> {
    /// The managed files by identifier.
    spec fn catalogue(&self) -> Map<u128, FileEntity<S>>;

    /// Materializes `source`, stores it under the fresh identifier `id` with
    /// the requested name, and answers with a viewport over the whole text.
    fn create_code_file(&mut self, request: CreateCodeFileRequest, id: u128, source: S) -> (r:
        Result<CodeFileResponse, ApplicationError>)
        ensures
            r is Ok || r->Err_0 is IoError,
            r is Err ==> final(self).catalogue() == old(self).catalogue(),
            r matches Ok(resp) ==> {
                let e = final(self).catalogue()[id];
                &&& final(self).catalogue() == old(self).catalogue().insert(id, e)
                &&& e.id == id
                &&& e.name@ == request.name@
                &&& e.source.text() == created_text(source)
                &&& resp.id == id
                &&& resp.name@ == request.name@
                &&& full_viewport(resp.viewport, created_text(source))
            },
    ;

    /// Replaces the characters over `[start, end)` of the file `request.id`
    /// and stores the file back under the same identifier.
    fn update_code_file(&mut self, request: UpdateCodeRequest) -> (r: Result<(), ApplicationError>)
        ensures
            r is Err ==> final(self).catalogue() == old(self).catalogue(),
            !old(self).catalogue().contains_key(request.id) ==> (r matches Err(e) && is_not_found(
                e,
                request.id,
            )),
            old(self).catalogue().contains_key(request.id) && !valid_range(
                old(self).catalogue()[request.id].source.text().len(),
                request.start as int,
                request.end as int,
            ) ==> (r matches Err(e) && is_range_error(e, request.end as usize)),
            old(self).catalogue().contains_key(request.id) && valid_range(
                old(self).catalogue()[request.id].source.text().len(),
                request.start as int,
                request.end as int,
            ) ==> (r is Ok || r->Err_0 is IoError),
            r is Ok ==> {
                let before = old(self).catalogue()[request.id];
                let e = final(self).catalogue()[request.id];
                &&& old(self).catalogue().contains_key(request.id)
                &&& final(self).catalogue() == old(self).catalogue().insert(request.id, e)
                &&& e.id == request.id
                &&& e.name@ == before.name@
                &&& e.source.text() == spliced(
                    before.source.text(),
                    request.start as int,
                    request.end as int,
                    request.content@,
                )
            },
    ;

    /// The file `file_id` with a viewport over its whole text.
    fn get_code_file(&self, file_id: u128) -> (r: Result<CodeFileResponse, ApplicationError>)
        ensures
            self.catalogue().contains_key(file_id) ==> (r matches Ok(resp) && resp.id == file_id
                && resp.name@ == self.catalogue()[file_id].name@ && full_viewport(
                resp.viewport,
                self.catalogue()[file_id].source.text(),
            )),
            !self.catalogue().contains_key(file_id) ==> (r matches Err(e) && is_not_found(
                e,
                file_id,
            )),
    ;

    /// Removes the medium of the file `file_id`, then the file itself.
    fn delete_code_file(&mut self, file_id: u128) -> (r: Result<(), ApplicationError>)
        ensures
            r is Err ==> final(self).catalogue() == old(self).catalogue(),
            !old(self).catalogue().contains_key(file_id) ==> (r matches Err(e) && is_not_found(
                e,
                file_id,
            )),
            old(self).catalogue().contains_key(file_id) ==> (r is Ok || r->Err_0 is IoError),
            old(self).catalogue().contains_key(file_id) && !old(
                self,
            ).catalogue()[file_id].source.is_materialized() ==> (r matches Err(e) && e is IoError),
            r is Ok ==> old(self).catalogue().contains_key(file_id) && final(self).catalogue()
                == old(self).catalogue().remove(file_id),
    ;
}

/// The entity operations over an in-memory catalogue.
pub struct CodeFileUsecasesImpl<S> {
    pub repository: InMemoryCodeFileRepository<S>,
}

impl<S: DynemicFileRead + DynemicFileWrite + DynemicFileCreateDelete> CodeFileUsecasesImpl<S> {
    /// Use cases over the given catalogue.
    pub fn new(repository: InMemoryCodeFileRepository<S>) -> (r: Self)
        ensures
            r.catalogue() == repository.entries(),
    {
        CodeFileUsecasesImpl { repository }
    }
}

/// A viewport over the whole of `content`.
fn full_view(content: String) -> (v: ViewportRequest)
    ensures
        full_viewport(v, content@),
{
    let len = chars_of(content.as_str()).len();
    ViewportRequest { start_index: 0, end_index: len as u64, content }
}

impl<S: DynemicFileRead + DynemicFileWrite + DynemicFileCreateDelete> CodeFileUsecases<
    S,
> for CodeFileUsecasesImpl<S> {
    open spec fn catalogue(&self) -> Map<u128, FileEntity<S>> {
        self.repository.entries()
    }

    fn create_code_file(&mut self, request: CreateCodeFileRequest, id: u128, source: S) -> (r:
        Result<CodeFileResponse, ApplicationError>) {
        let mut source = source;
        match source.create_file() {
            Ok(()) => {},
            Err(e) => {
                return Err(ApplicationError::IoError(e));
            },
        }
        let name = request.name;
        let file = FileEntity::new(id, name.clone(), source);
        let saved = match self.repository.save(file) {
            Ok(f) => f,
            Err(e) => {
                return Err(e);
            },
        };
        let content = saved.source.get_content();
        Ok(CodeFileResponse { id: saved.id(), name, viewport: full_view(content) })
    }

    fn update_code_file(&mut self, request: UpdateCodeRequest) -> (r: Result<(), ApplicationError>) {
        let mut file = match self.repository.find_by_id(request.id) {
            Ok(f) => f,
            Err(e) => {
                return Err(e);
            },
        };
        let current = file.source.get_content();
        let len = chars_of(current.as_str()).len();
        if request.start > request.end || request.end > len as u64 {
            return Err(ApplicationError::InvalidRange(request.end as usize));
        }
        match file.source.set_slice(request.start as usize, request.end as usize, request.content) {
            Ok(()) => {},
            Err(e) => {
                return Err(e);
            },
        }
        self.repository.update(file)
    }

    fn get_code_file(&self, file_id: u128) -> (r: Result<CodeFileResponse, ApplicationError>) {
        let file = match self.repository.find_by_id(file_id) {
            Ok(f) => f,
            Err(e) => {
                return Err(e);
            },
        };
        let content = file.source.get_content();
        Ok(CodeFileResponse { id: file.id(), name: file.name, viewport: full_view(content) })
    }

    fn delete_code_file(&mut self, file_id: u128) -> (r: Result<(), ApplicationError>) {
        let mut file = match self.repository.find_by_id(file_id) {
            Ok(f) => f,
            Err(e) => {
                return Err(e);
            },
        };
        match file.source.delete_file() {
            Ok(()) => {},
            Err(e) => {
                return Err(ApplicationError::IoError(e));
            },
        }
        self.repository.delete(file_id)
    }
}

} // verus!
