use vstd::prelude::*;

verus! {

/// Arguments of `create_snippet`: tags may be left out.
#[derive(Debug, Clone)]
pub struct CreateSnippetRequest {
    pub title: String,
    pub code: String,
    pub language: String,
    pub tags: Option<Vec<String>>,
}

/// Arguments of `update_snippet`: every field but the id may be left out.
#[derive(Debug, Clone)]
pub struct UpdateSnippetRequest {
    pub id: i64,
    pub title: Option<String>,
    pub code: Option<String>,
    pub language: Option<String>,
    pub tags: Option<Vec<String>>,
}

/// Arguments of `search_snippets`: an empty query matches every record.
#[derive(Debug, Clone)]
pub struct SearchSnippetRequest {
    pub query: String,
    pub language: Option<String>,
}

/// Arguments of the operations that name one record.
#[derive(Debug, Clone, Copy)]
pub struct IdRequest {
    pub id: i64,
}

/// Arguments of `list_snippets`: page and limit default to 1 and 20.
#[derive(Debug, Clone, Copy)]
pub struct ListRequest {
    pub page: Option<u64>,
    pub limit: Option<u64>,
}

} // verus!
