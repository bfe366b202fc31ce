use vstd::prelude::*;

verus! {

/// A range of a file's text, in character positions, with the text over it.
pub struct ViewportRequest {
    pub start_index: u64,
    pub end_index: u64,
    pub content: String,
}

/// A request to replace the characters over `[start, end)` of a file.
pub struct UpdateCodeRequest {
    pub id: u128,
    pub start: u64,
    pub end: u64,
    pub content: String,
}

/// A request to create a file of the given name.
pub struct CreateCodeFileRequest {
    pub name: String,
}

/// A file's identity together with a viewport over its text.
pub struct CodeFileResponse {
    pub id: u128,
    pub name: String,
    pub viewport: ViewportRequest,
}

/// Whether `v` covers the whole of `text`.
pub open spec fn full_viewport(v: ViewportRequest, text: Seq<char>) -> bool {
    &&& v.start_index == 0
    &&& v.end_index == text.len()
    &&& v.content@ == text
}

} // verus!
