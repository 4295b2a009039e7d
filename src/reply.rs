use vstd::prelude::*;

use crate::models::CodeSnippet;
use crate::router::ToolError;
use crate::statement::SEARCH_CAP;
use vstd::math::min;
use crate::tags::{label_views, read_labels, read_tags};

verus! {

/// A record as a tool call returns it: the tags read out of their stored
/// text.
#[derive(Debug, Clone)]
pub struct SnippetRecord {
    pub id: i64,
    pub title: String,
    pub code: String,
    pub language: String,
    pub tags: Vec<String>,
    pub created_at: String,
    pub updated_at: String,
}

/// The successful result of a tool call.
#[derive(Debug, Clone)]
pub enum ToolOutput {
    Created { id: i64 },
    Snippet { snippet: SnippetRecord },
    Snippets { snippets: Vec<SnippetRecord> },
    Page { snippets: Vec<SnippetRecord>, page: u64, limit: u64, total: u64, pages: u64 },
    Updated,
    Deleted,
}

/// A returned record carries the stored row, with its tags read back.
pub open spec fn record_matches(record: SnippetRecord, row: CodeSnippet) -> bool {
    &&& record.id == row.id
    &&& record.title@ == row.title@
    &&& record.code@ == row.code@
    &&& record.language@ == row.language@
    &&& label_views(record.tags@) == read_labels(row.tags@)
    &&& record.created_at@ == row.created_at@
    &&& record.updated_at@ == row.updated_at@
}

/// Each record carries the row at the same position.
pub open spec fn records_match(records: Seq<SnippetRecord>, rows: Seq<CodeSnippet>) -> bool {
    &&& records.len() == rows.len()
    &&& forall|i: int| 0 <= i < rows.len() ==> record_matches(#[trigger] records[i], rows[i])
}

/// The number of pages of `limit` records that hold `total` records: the
/// quotient rounded up, none for a limit of zero.
pub open spec fn spec_page_count(total: int, limit: int) -> int {
    if limit == 0 {
        0
    } else if total % limit == 0 {
        total / limit
    } else {
        total / limit + 1
    }
}

impl SnippetRecord {
    pub fn from_row(row: &CodeSnippet) -> (r: SnippetRecord)
        ensures
            record_matches(r, *row),
    {
        SnippetRecord {
            id: row.id,
            title: row.title.clone(),
            code: row.code.clone(),
            language: row.language.clone(),
            tags: read_tags(row.tags.as_str()),
            created_at: row.created_at.clone(),
            updated_at: row.updated_at.clone(),
        }
    }
}

/// The records of the first `n` rows, in order.
fn records_from_prefix(rows: &Vec<CodeSnippet>, n: usize) -> (r: Vec<SnippetRecord>)
    requires
        n <= rows.len(),
    ensures
        records_match(r@, rows@.subrange(0, n as int)),
{
    let mut r: Vec<SnippetRecord> = Vec::new();
    let mut i: usize = 0;
    while i < n
        invariant
            n <= rows.len(),
            i <= n,
            records_match(r@, rows@.subrange(0, i as int)),
        decreases n - i,
    {
        let record = SnippetRecord::from_row(&rows[i]);
        r.push(record);
        i = i + 1;
        assert(records_match(r@, rows@.subrange(0, i as int)));
    }
    r
}

pub fn records_from_rows(rows: &Vec<CodeSnippet>) -> (r: Vec<SnippetRecord>)
    ensures
        records_match(r@, rows@),
{
    let r = records_from_prefix(rows, rows.len());
    assert(rows@.subrange(0, rows.len() as int) =~= rows@);
    r
}

pub fn page_count(total: u64, limit: u64) -> (r: u64)
    ensures
        r == spec_page_count(total as int, limit as int),
{
    if limit == 0 {
        return 0;
    }
    let q = total / limit;
    if total % limit == 0 {
        q
    } else {
        assert(limit >= 2);
        assert(q < u64::MAX) by (nonlinear_arith)
            requires
                limit >= 2,
                q == total / limit,
                total <= u64::MAX,
        ;
        q + 1
    }
}

/// The record that a lookup found; none found is `NotFound`.
pub fn snippet_reply(row: Option<CodeSnippet>) -> (r: Result<ToolOutput, ToolError>)
    ensures
        row is None <==> r matches Err(ToolError::NotFound),
        row is None ==> r is Err,
        row matches Some(found) ==> r matches Ok(ToolOutput::Snippet { snippet }) && record_matches(
            snippet,
            found,
        ),
{
    match row {
        Some(found) => Ok(ToolOutput::Snippet { snippet: SnippetRecord::from_row(&found) }),
        None => Err(ToolError::NotFound),
    }
}

/// The records that a search found, in the order the store gave them, at
/// most `SEARCH_CAP` of them.
pub fn search_reply(rows: &Vec<CodeSnippet>) -> (r: ToolOutput)
    ensures
        r matches ToolOutput::Snippets { snippets } && records_match(
            snippets@,
            rows@.subrange(0, min(rows@.len() as int, SEARCH_CAP as int)),
        ),
{
    let n: usize = if rows.len() < SEARCH_CAP as usize {
        rows.len()
    } else {
        SEARCH_CAP as usize
    };
    ToolOutput::Snippets { snippets: records_from_prefix(rows, n) }
}

/// One page of a listing, with the total count and the number of pages.
pub fn page_reply(page: u64, limit: u64, rows: &Vec<CodeSnippet>, total: u64) -> (r: ToolOutput)
    ensures
        r matches ToolOutput::Page { snippets, page: p, limit: l, total: t, pages } && {
            &&& records_match(snippets@, rows@)
            &&& p == page
            &&& l == limit
            &&& t == total
            &&& pages == spec_page_count(total as int, limit as int)
        },
{
    ToolOutput::Page {
        snippets: records_from_rows(rows),
        page,
        limit,
        total,
        pages: page_count(total, limit),
    }
}

/// The result of an update: no row changed is `NotFound`.
pub fn update_reply(rows_affected: u64) -> (r: Result<ToolOutput, ToolError>)
    ensures
        rows_affected == 0 ==> r matches Err(ToolError::NotFound),
        rows_affected > 0 ==> r matches Ok(ToolOutput::Updated),
{
    if rows_affected == 0 {
        Err(ToolError::NotFound)
    } else {
        Ok(ToolOutput::Updated)
    }
}

/// The result of a deletion: no row removed is `NotFound`.
pub fn delete_reply(rows_affected: u64) -> (r: Result<ToolOutput, ToolError>)
    ensures
        rows_affected == 0 ==> r matches Err(ToolError::NotFound),
        rows_affected > 0 ==> r matches Ok(ToolOutput::Deleted),
{
    if rows_affected == 0 {
        Err(ToolError::NotFound)
    } else {
        Ok(ToolOutput::Deleted)
    }
}

} // verus!
