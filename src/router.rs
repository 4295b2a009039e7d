use vstd::prelude::*;

use crate::models::CodeSnippet;
use crate::permissions::{Category, ServerPermissions};
use crate::reply::{record_matches, SnippetRecord};
use crate::requests::{
    CreateSnippetRequest, IdRequest, ListRequest, SearchSnippetRequest, UpdateSnippetRequest,
};
use crate::statement::{
    all_view, batch_delete_view, by_id_view, count_view, delete_view, insert_view, language_view,
    languages_view, opt_text, page_view, search_view, update_view, SqlParam, Statement,
    StatementView,
};
use crate::tags::{label_views, read_labels, stored_labels, write_tags};

verus! {

/// The named operations of the catalog.
#[derive(Debug, Clone, Copy, PartialEq, Eq, Structural)]
pub enum Operation {
    CreateSnippet,
    GetSnippet,
    SearchSnippets,
    ListSnippets,
    UpdateSnippet,
    DeleteSnippet,
}

/// The typed failure of one tool call.
#[derive(Debug, Clone)]
pub enum ToolError {
    /// No operation has the requested name.
    MethodNotFound,
    /// The arguments do not fit the operation's schema.
    InvalidParams,
    /// A field is missing, empty or out of range.
    ValidationError,
    /// The capability flag of the operation's category is off.
    PermissionDenied,
    /// No record has the requested id.
    NotFound,
    /// The store failed; the text says how.
    StoreError(String),
}

impl Operation {
    pub open spec fn spec_name(self) -> Seq<char> {
        match self {
            Operation::CreateSnippet => "create_snippet"@,
            Operation::GetSnippet => "get_snippet"@,
            Operation::SearchSnippets => "search_snippets"@,
            Operation::ListSnippets => "list_snippets"@,
            Operation::UpdateSnippet => "update_snippet"@,
            Operation::DeleteSnippet => "delete_snippet"@,
        }
    }

    pub open spec fn spec_category(self) -> Category {
        match self {
            Operation::CreateSnippet => Category::Create,
            Operation::GetSnippet => Category::Query,
            Operation::SearchSnippets => Category::Query,
            Operation::ListSnippets => Category::Query,
            Operation::UpdateSnippet => Category::Update,
            Operation::DeleteSnippet => Category::Delete,
        }
    }

    /// The name under which the operation is called.
    pub fn name(&self) -> (r: &'static str)
        ensures
            r@ == self.spec_name(),
    {
        match self {
            Operation::CreateSnippet => "create_snippet",
            Operation::GetSnippet => "get_snippet",
            Operation::SearchSnippets => "search_snippets",
            Operation::ListSnippets => "list_snippets",
            Operation::UpdateSnippet => "update_snippet",
            Operation::DeleteSnippet => "delete_snippet",
        }
    }

    /// The permission category that gates the operation.
    pub fn category(&self) -> (r: Category)
        ensures
            r == self.spec_category(),
    {
        match self {
            Operation::CreateSnippet => Category::Create,
            Operation::GetSnippet => Category::Query,
            Operation::SearchSnippets => Category::Query,
            Operation::ListSnippets => Category::Query,
            Operation::UpdateSnippet => Category::Update,
            Operation::DeleteSnippet => Category::Delete,
        }
    }

    /// Every operation of the catalog, once each.
    pub fn catalog() -> (r: Vec<Operation>)
        ensures
            r@ == seq![
                Operation::CreateSnippet,
                Operation::GetSnippet,
                Operation::SearchSnippets,
                Operation::ListSnippets,
                Operation::UpdateSnippet,
                Operation::DeleteSnippet,
            ],
    {
        let r = vec![
            Operation::CreateSnippet,
            Operation::GetSnippet,
            Operation::SearchSnippets,
            Operation::ListSnippets,
            Operation::UpdateSnippet,
            Operation::DeleteSnippet,
        ];
        assert(r@ =~= seq![
            Operation::CreateSnippet,
            Operation::GetSnippet,
            Operation::SearchSnippets,
            Operation::ListSnippets,
            Operation::UpdateSnippet,
            Operation::DeleteSnippet,
        ]);
        r
    }

    /// Looks an operation up by name; an unknown name is `MethodNotFound`.
    pub fn lookup(name: &str) -> (r: Result<Operation, ToolError>)
        ensures
            r is Ok ==> r->Ok_0.spec_name() == name@,
            r is Err ==> r->Err_0 is MethodNotFound,
            r is Err <==> forall|op: Operation| #[trigger] op.spec_name() != name@,
            forall|op: Operation| #[trigger] op.spec_name() == name@ ==> r == Ok::<
                Operation,
                ToolError,
            >(op),
    {
        let n = name.to_owned();
        let r = if n == String::from_str("create_snippet") {
            Ok(Operation::CreateSnippet)
        } else if n == String::from_str("get_snippet") {
            Ok(Operation::GetSnippet)
        } else if n == String::from_str("search_snippets") {
            Ok(Operation::SearchSnippets)
        } else if n == String::from_str("list_snippets") {
            Ok(Operation::ListSnippets)
        } else if n == String::from_str("update_snippet") {
            Ok(Operation::UpdateSnippet)
        } else if n == String::from_str("delete_snippet") {
            Ok(Operation::DeleteSnippet)
        } else {
            Err(ToolError::MethodNotFound)
        };
        proof {
            if r is Err {
                assert forall|op: Operation| #[trigger] op.spec_name() != name@ by {
                    match op {
                        Operation::CreateSnippet => {},
                        Operation::GetSnippet => {},
                        Operation::SearchSnippets => {},
                        Operation::ListSnippets => {},
                        Operation::UpdateSnippet => {},
                        Operation::DeleteSnippet => {},
                    }
                }
            } else {
                lemma_names_distinct();
                let found = r->Ok_0;
                assert(found.spec_name() == name@);
                assert forall|op: Operation| #[trigger] op.spec_name() == name@ implies r == Ok::<
                    Operation,
                    ToolError,
                >(op) by {
                    assert(op.spec_name() == found.spec_name());
                }
            }
        }
        r
    }
}

/// No two operations share a name.
pub proof fn lemma_names_distinct()
    ensures
        forall|a: Operation, b: Operation| #[trigger] a.spec_name() == #[trigger] b.spec_name() ==> a == b,
{
    reveal_strlit("create_snippet");
    reveal_strlit("get_snippet");
    reveal_strlit("search_snippets");
    reveal_strlit("list_snippets");
    reveal_strlit("update_snippet");
    reveal_strlit("delete_snippet");
    assert forall|a: Operation, b: Operation| #[trigger] a.spec_name() == #[trigger] b.spec_name() implies a == b by {
        if a != b {
            assert(a.spec_name()[0] != b.spec_name()[0] || a.spec_name().len() != b.spec_name().len() || a.spec_name()[1] != b.spec_name()[1]);
        }
    }
}

/// Relies on chrono's `Local::now`, formatted as `%Y-%m-%dT%H:%M:%S`: the
/// local time of the call. The format writes its separators literally, so the
/// text is never empty; nothing more is promised of its value.
#[verifier::external_body]
pub fn get_current_timestamp() -> (r: String)
    ensures
        r@.len() > 0,
{
    chrono::Local::now().format("%Y-%m-%dT%H:%M:%S").to_string()
}

/// What a planned call amounts to: the statement, or the error.
pub open spec fn plan_view(r: Result<Statement, ToolError>) -> Result<StatementView, ToolError> {
    match r {
        Ok(s) => Ok(s@),
        Err(e) => Err(e),
    }
}

/// The labels supplied with a request; none when the field is left out.
pub open spec fn supplied_labels(tags: Option<Vec<String>>) -> Seq<Seq<char>> {
    match tags {
        Some(t) => label_views(t@),
        None => Seq::empty(),
    }
}

/// The stored text of the labels of an update, when they are supplied.
pub open spec fn updated_labels(tags: Option<Vec<String>>) -> Option<Seq<char>> {
    match tags {
        Some(t) => Some(stored_labels(label_views(t@))),
        None => None,
    }
}

pub open spec fn create_outcome(
    permissions: ServerPermissions,
    request: CreateSnippetRequest,
    now: Seq<char>,
) -> Result<StatementView, ToolError> {
    if !permissions.permits(Category::Create) {
        Err(ToolError::PermissionDenied)
    } else if request.title@.len() == 0 {
        Err(ToolError::ValidationError)
    } else {
        Ok(
            insert_view(
                request.title@,
                request.code@,
                request.language@,
                stored_labels(supplied_labels(request.tags)),
                now,
            ),
        )
    }
}

pub open spec fn get_outcome(permissions: ServerPermissions, id: i64) -> Result<StatementView, ToolError> {
    if !permissions.permits(Category::Query) {
        Err(ToolError::PermissionDenied)
    } else {
        Ok(by_id_view(id as int))
    }
}

pub open spec fn search_outcome(
    permissions: ServerPermissions,
    request: SearchSnippetRequest,
) -> Result<StatementView, ToolError> {
    if !permissions.permits(Category::Query) {
        Err(ToolError::PermissionDenied)
    } else {
        Ok(search_view(request.query@, opt_text(request.language)))
    }
}

/// An update names no field to change.
pub open spec fn no_fields(request: UpdateSnippetRequest) -> bool {
    &&& request.title is None
    &&& request.code is None
    &&& request.language is None
    &&& request.tags is None
}

pub open spec fn update_outcome(
    permissions: ServerPermissions,
    request: UpdateSnippetRequest,
    now: Seq<char>,
) -> Result<StatementView, ToolError> {
    if !permissions.permits(Category::Update) {
        Err(ToolError::PermissionDenied)
    } else if no_fields(request) {
        Err(ToolError::ValidationError)
    } else if request.title matches Some(t) && t@.len() == 0 {
        Err(ToolError::ValidationError)
    } else {
        Ok(
            update_view(
                request.id as int,
                opt_text(request.title),
                opt_text(request.code),
                opt_text(request.language),
                updated_labels(request.tags),
                now,
            ),
        )
    }
}

pub open spec fn delete_outcome(permissions: ServerPermissions, id: i64) -> Result<StatementView, ToolError> {
    if !permissions.permits(Category::Delete) {
        Err(ToolError::PermissionDenied)
    } else {
        Ok(delete_view(id as int))
    }
}

/// The page and limit of a listing, with their defaults.
pub open spec fn page_of(request: ListRequest) -> int {
    match request.page {
        Some(p) => p as int,
        None => 1,
    }
}

pub open spec fn limit_of(request: ListRequest) -> int {
    match request.limit {
        Some(l) => l as int,
        None => 20,
    }
}

/// A page request that the store can take: pages count from 1, and the
/// limit and the offset fit the store's integers.
pub open spec fn valid_page(page: int, limit: int) -> bool {
    &&& page >= 1
    &&& 1 <= limit <= i64::MAX
    &&& (page - 1) * limit <= i64::MAX
}

/// The statements of one listing: the page itself and the total count.
#[derive(Debug, Clone)]
pub struct ListPlan {
    pub page: u64,
    pub limit: u64,
    pub rows: Statement,
    pub count: Statement,
}

/// The tool handlers: each checks the capability of its category, validates
/// its arguments and plans the statement that the store runs.
#[derive(Debug, Clone, Copy)]
pub struct SnippetService {
    pub permissions: ServerPermissions,
}

/// With deletion not allowed, every delete is refused with
/// `PermissionDenied` and plans no statement, so no record goes away.
pub proof fn lemma_delete_denied(permissions: ServerPermissions, id: i64)
    requires
        !permissions.allow_delete,
    ensures
        delete_outcome(permissions, id) == Err::<StatementView, ToolError>(
            ToolError::PermissionDenied,
        ),
{
}

/// An allowed update that supplies no field is refused with
/// `ValidationError` and plans no statement, so the record stays as it was.
pub proof fn lemma_empty_update_rejected(
    permissions: ServerPermissions,
    request: UpdateSnippetRequest,
    now: Seq<char>,
)
    requires
        permissions.allow_update,
        no_fields(request),
    ensures
        update_outcome(permissions, request, now) == Err::<StatementView, ToolError>(
            ToolError::ValidationError,
        ),
{
}

/// The row that an insertion creates: its columns hold the bound values in
/// the order the statement names them.
pub open spec fn inserted_row(statement: StatementView, row: CodeSnippet) -> bool {
    &&& statement.params.len() == 6
    &&& statement.params[0] == SqlParam::Text(row.title@)
    &&& statement.params[1] == SqlParam::Text(row.code@)
    &&& statement.params[2] == SqlParam::Text(row.language@)
    &&& statement.params[3] == SqlParam::Text(row.tags@)
    &&& statement.params[4] == SqlParam::Text(row.created_at@)
    &&& statement.params[5] == SqlParam::Text(row.updated_at@)
}

/// Every record read back from a row that the statement inserted carries
/// the request: its title, code, language and labels, with `now` as both its
/// creation and its update time.
pub open spec fn reads_back_as(
    statement: StatementView,
    request: CreateSnippetRequest,
    now: Seq<char>,
) -> bool {
    forall|row: CodeSnippet, record: SnippetRecord|
        inserted_row(statement, row) && #[trigger] record_matches(record, row) ==> {
            &&& record.title@ == request.title@
            &&& record.code@ == request.code@
            &&& record.language@ == request.language@
            &&& label_views(record.tags@) == supplied_labels(request.tags)
            &&& record.created_at@ == now
            &&& record.updated_at@ == now
        }
}

impl SnippetService {
    pub fn new(permissions: ServerPermissions) -> (r: Self)
        ensures
            r.permissions == permissions,
    {
        SnippetService { permissions }
    }

    /// Plans the insertion of a record stamped with `now`.
    pub fn create_snippet_at(&self, request: &CreateSnippetRequest, now: &String) -> (r: Result<
        Statement,
        ToolError,
    >)
        ensures
            plan_view(r) == create_outcome(self.permissions, *request, now@),
            r matches Ok(st) ==> reads_back_as(st@, *request, now@),
    {
        if !self.permissions.allows(Category::Create) {
            return Err(ToolError::PermissionDenied);
        }
        if request.title.as_str().is_empty() {
            return Err(ToolError::ValidationError);
        }
        let tags = match &request.tags {
            Some(t) => write_tags(t),
            None => {
                let none: Vec<String> = Vec::new();
                assert(label_views(none@) =~= Seq::empty());
                write_tags(&none)
            },
        };
        assert(read_labels(tags@) == supplied_labels(request.tags));
        let st = Statement::insert(&request.title, &request.code, &request.language, &tags, now);
        assert(reads_back_as(st@, *request, now@));
        Ok(st)
    }

    /// Plans the insertion of a record stamped with the current time.
    pub fn create_snippet(&self, request: &CreateSnippetRequest) -> (r: Result<Statement, ToolError>)
        ensures
            exists|now: Seq<char>|
                {
                    &&& now.len() > 0
                    &&& plan_view(r) == #[trigger] create_outcome(self.permissions, *request, now)
                    &&& r matches Ok(st) ==> reads_back_as(st@, *request, now)
                },
    {
        let now = get_current_timestamp();
        self.create_snippet_at(request, &now)
    }

    /// Plans the lookup of one record.
    pub fn get_snippet(&self, request: &IdRequest) -> (r: Result<Statement, ToolError>)
        ensures
            plan_view(r) == get_outcome(self.permissions, request.id),
    {
        if !self.permissions.allows(Category::Query) {
            return Err(ToolError::PermissionDenied);
        }
        Ok(Statement::by_id(request.id))
    }

    /// Plans a search.
    pub fn search_snippets(&self, request: &SearchSnippetRequest) -> (r: Result<Statement, ToolError>)
        ensures
            plan_view(r) == search_outcome(self.permissions, *request),
    {
        if !self.permissions.allows(Category::Query) {
            return Err(ToolError::PermissionDenied);
        }
        Ok(Statement::search(&request.query, &request.language))
    }

    /// Plans one page of a listing and the count of all records.
    pub fn list_snippets(&self, request: &ListRequest) -> (r: Result<ListPlan, ToolError>)
        ensures
            !self.permissions.permits(Category::Query) ==> r matches Err(
                ToolError::PermissionDenied,
            ),
            self.permissions.permits(Category::Query) && !valid_page(
                page_of(*request),
                limit_of(*request),
            ) ==> r matches Err(ToolError::ValidationError),
            self.permissions.permits(Category::Query) && valid_page(
                page_of(*request),
                limit_of(*request),
            ) ==> r is Ok,
            r matches Ok(plan) ==> {
                &&& plan.page == page_of(*request)
                &&& plan.limit == limit_of(*request)
                &&& plan.rows@ == page_view(
                    limit_of(*request),
                    (page_of(*request) - 1) * limit_of(*request),
                )
                &&& plan.count@ == count_view()
            },
    {
        if !self.permissions.allows(Category::Query) {
            return Err(ToolError::PermissionDenied);
        }
        let page: u64 = match request.page {
            Some(p) => p,
            None => 1,
        };
        let limit: u64 = match request.limit {
            Some(l) => l,
            None => 20,
        };
        if page == 0 || limit == 0 || limit > i64::MAX as u64 {
            return Err(ToolError::ValidationError);
        }
        match (page - 1).checked_mul(limit) {
            None => Err(ToolError::ValidationError),
            Some(offset) => {
                if offset > i64::MAX as u64 {
                    Err(ToolError::ValidationError)
                } else {
                    Ok(
                        ListPlan {
                            page,
                            limit,
                            rows: Statement::page(limit as i64, offset as i64),
                            count: Statement::count(),
                        },
                    )
                }
            },
        }
    }

    /// Plans a partial update stamped with `now`; an update that names no
    /// field, or sets an empty title, is refused.
    pub fn update_snippet_at(&self, request: &UpdateSnippetRequest, now: &String) -> (r: Result<
        Statement,
        ToolError,
    >)
        ensures
            plan_view(r) == update_outcome(self.permissions, *request, now@),
    {
        if !self.permissions.allows(Category::Update) {
            return Err(ToolError::PermissionDenied);
        }
        if request.title.is_none() && request.code.is_none() && request.language.is_none()
            && request.tags.is_none() {
            return Err(ToolError::ValidationError);
        }
        match &request.title {
            Some(t) => {
                if t.as_str().is_empty() {
                    return Err(ToolError::ValidationError);
                }
            },
            None => {},
        }
        let tags = match &request.tags {
            Some(t) => Some(write_tags(t)),
            None => None,
        };
        Ok(
            Statement::update(
                request.id,
                &request.title,
                &request.code,
                &request.language,
                &tags,
                now,
            ),
        )
    }

    /// Plans a partial update stamped with the current time.
    pub fn update_snippet(&self, request: &UpdateSnippetRequest) -> (r: Result<Statement, ToolError>)
        ensures
            exists|now: Seq<char>|
                plan_view(r) == #[trigger] update_outcome(self.permissions, *request, now),
    {
        let now = get_current_timestamp();
        self.update_snippet_at(request, &now)
    }

    /// Plans the deletion of one record.
    pub fn delete_snippet(&self, request: &IdRequest) -> (r: Result<Statement, ToolError>)
        ensures
            plan_view(r) == delete_outcome(self.permissions, request.id),
    {
        if !self.permissions.allows(Category::Delete) {
            return Err(ToolError::PermissionDenied);
        }
        Ok(Statement::delete(request.id))
    }

    /// Every record, for the host application: the capability flags gate tool
    /// calls only.
    pub fn get_snippets() -> (r: Statement)
        ensures
            r@ == all_view(),
    {
        Statement::all()
    }

    /// The records of one language, for the host application.
    pub fn get_snippets_by_language(language: &String) -> (r: Statement)
        ensures
            r@ == language_view(language@),
    {
        Statement::by_language(language)
    }

    /// One record, for the host application.
    pub fn get_snippet_by_id(id: i64) -> (r: Statement)
        ensures
            r@ == by_id_view(id as int),
    {
        Statement::by_id(id)
    }

    /// Deletion of the listed records, for the host application; an empty
    /// list deletes nothing and needs no statement.
    pub fn batch_delete_snippets(ids: &Vec<i64>) -> (r: Option<Statement>)
        ensures
            ids@.len() == 0 <==> r is None,
            r matches Some(st) ==> st@ == batch_delete_view(ids@),
    {
        Statement::batch_delete(ids)
    }

    /// The count of records and their distinct languages, in order.
    pub fn get_snippet_stats() -> (r: (Statement, Statement))
        ensures
            r.0@ == count_view(),
            r.1@ == languages_view(),
    {
        (Statement::count(), Statement::languages())
    }
}

} // verus!
