use seekcode::models::{CodeSnippet, DatabaseStats};
use seekcode::permissions::ServerPermissions;
use seekcode::reply::{delete_reply, page_reply, search_reply, snippet_reply, ToolOutput};
use seekcode::requests::{CreateSnippetRequest, IdRequest, ListRequest, SearchSnippetRequest};
use seekcode::router::{SnippetService, ToolError};
use seekcode::statement::{SqlValue, Statement};
use sqlx::{Connection, Row, SqliteConnection};

fn bind(st: &Statement) -> sqlx::query::Query<'_, sqlx::Sqlite, sqlx::sqlite::SqliteArguments<'_>> {
    let mut q = sqlx::query(&st.sql);
    for p in &st.params {
        q = match p {
            SqlValue::Text(s) => q.bind(s.as_str()),
            SqlValue::Integer(i) => q.bind(*i),
        };
    }
    q
}

fn to_row(r: &sqlx::sqlite::SqliteRow) -> CodeSnippet {
    CodeSnippet {
        id: r.get("id"),
        title: r.get("title"),
        language: r.get("language"),
        code: r.get("code"),
        tags: r.get("tags"),
        created_at: r.get("created_at"),
        updated_at: r.get("updated_at"),
    }
}

struct Store {
    rt: tokio::runtime::Runtime,
    conn: SqliteConnection,
}

impl Store {
    fn open() -> Store {
        let rt = tokio::runtime::Builder::new_current_thread().enable_all().build().unwrap();
        let mut conn = rt.block_on(SqliteConnection::connect("sqlite::memory:")).unwrap();
        for st in Statement::schema() {
            rt.block_on(bind(&st).execute(&mut conn)).unwrap();
        }
        Store { rt, conn }
    }

    fn execute(&mut self, st: &Statement) -> (u64, i64) {
        let r = self.rt.block_on(bind(st).execute(&mut self.conn)).unwrap();
        (r.rows_affected(), r.last_insert_rowid())
    }

    fn fetch(&mut self, st: &Statement) -> Vec<CodeSnippet> {
        let rows = self.rt.block_on(bind(st).fetch_all(&mut self.conn)).unwrap();
        rows.iter().map(to_row).collect()
    }

    fn languages(&mut self, st: &Statement) -> Vec<String> {
        let rows = self.rt.block_on(bind(st).fetch_all(&mut self.conn)).unwrap();
        rows.iter().map(|r| r.get::<String, _>("language")).collect()
    }

    fn count(&mut self, st: &Statement) -> u64 {
        let row = self.rt.block_on(bind(st).fetch_one(&mut self.conn)).unwrap();
        row.get::<i64, _>("count") as u64
    }
}

fn service() -> SnippetService {
    SnippetService::new(ServerPermissions { allow_query: true, allow_create: true, allow_update: true, allow_delete: true })
}

fn create(store: &mut Store, title: &str, language: &str, tags: Option<Vec<String>>, now: &str) -> i64 {
    let request = CreateSnippetRequest {
        title: title.to_string(),
        code: format!("code of {}", title),
        language: language.to_string(),
        tags,
    };
    let st = service().create_snippet_at(&request, &now.to_string()).unwrap();
    store.execute(&st).1
}

fn get(store: &mut Store, id: i64) -> Result<ToolOutput, ToolError> {
    let st = service().get_snippet(&IdRequest { id }).unwrap();
    let rows = store.fetch(&st);
    snippet_reply(rows.into_iter().next())
}

#[test]
fn create_then_get_returns_the_input() {
    let mut store = Store::open();
    let tags = vec!["git".to_string(), "shell".to_string()];
    let id = create(&mut store, "Common Git Commands", "shell", Some(tags.clone()), "2025-06-15T10:30:00");
    match get(&mut store, id) {
        Ok(ToolOutput::Snippet { snippet }) => {
            assert_eq!(snippet.id, id);
            assert_eq!(snippet.title, "Common Git Commands");
            assert_eq!(snippet.code, "code of Common Git Commands");
            assert_eq!(snippet.language, "shell");
            assert_eq!(snippet.tags, tags);
            assert_eq!(snippet.created_at, "2025-06-15T10:30:00");
            assert_eq!(snippet.created_at, snippet.updated_at);
        }
        _ => panic!("expected the created record"),
    }
}

#[test]
fn untagged_snippet_reads_back_without_tags() {
    let mut store = Store::open();
    let id = create(&mut store, "t", "go", None, "2025-06-15T10:30:00");
    match get(&mut store, id) {
        Ok(ToolOutput::Snippet { snippet }) => assert!(snippet.tags.is_empty()),
        _ => panic!("expected the created record"),
    }
}

#[test]
fn delete_then_get_is_not_found() {
    let mut store = Store::open();
    let id = create(&mut store, "t", "go", None, "2025-06-15T10:30:00");
    let del = service().delete_snippet(&IdRequest { id }).unwrap();
    assert!(matches!(delete_reply(store.execute(&del).0), Ok(ToolOutput::Deleted)));
    assert!(matches!(get(&mut store, id), Err(ToolError::NotFound)));
    assert!(matches!(delete_reply(store.execute(&del).0), Err(ToolError::NotFound)));
    let next = create(&mut store, "u", "go", None, "2025-06-15T10:31:00");
    assert!(next > id);
}

#[test]
fn denied_delete_leaves_the_count() {
    let mut store = Store::open();
    let id = create(&mut store, "t", "go", None, "2025-06-15T10:30:00");
    let guarded = SnippetService::new(ServerPermissions { allow_query: true, allow_create: true, allow_update: false, allow_delete: false });
    assert!(matches!(guarded.delete_snippet(&IdRequest { id }), Err(ToolError::PermissionDenied)));
    let count = Statement::count();
    assert_eq!(store.count(&count), 1);
}

#[test]
fn search_by_language_newest_first() {
    let mut store = Store::open();
    let a = create(&mut store, "first go", "go", None, "2025-06-13T09:20:00");
    create(&mut store, "rust one", "rust", None, "2025-06-14T09:20:00");
    let c = create(&mut store, "second go", "go", None, "2025-06-15T09:20:00");
    let request = SearchSnippetRequest { query: String::new(), language: Some("go".to_string()) };
    let st = service().search_snippets(&request).unwrap();
    match search_reply(&store.fetch(&st)) {
        ToolOutput::Snippets { snippets } => {
            assert_eq!(snippets.iter().map(|s| s.id).collect::<Vec<_>>(), vec![c, a]);
        }
        _ => panic!("expected search results"),
    }
}

#[test]
fn search_matches_substrings_of_title_or_code() {
    let mut store = Store::open();
    create(&mut store, "HTTP server", "go", None, "2025-06-13T09:20:00");
    create(&mut store, "list", "rust", None, "2025-06-14T09:20:00");
    let request = SearchSnippetRequest { query: "server".to_string(), language: None };
    let st = service().search_snippets(&request).unwrap();
    assert_eq!(store.fetch(&st).len(), 1);
    let request = SearchSnippetRequest { query: "code of".to_string(), language: None };
    let st = service().search_snippets(&request).unwrap();
    assert_eq!(store.fetch(&st).len(), 2);
}

#[test]
fn second_page_of_five() {
    let mut store = Store::open();
    for i in 0..5 {
        create(&mut store, &format!("s{}", i), "go", None, &format!("2025-06-1{}T00:00:00", i));
    }
    let plan = service().list_snippets(&ListRequest { page: Some(2), limit: Some(2) }).unwrap();
    let rows = store.fetch(&plan.rows);
    let total = store.count(&plan.count);
    match page_reply(plan.page, plan.limit, &rows, total) {
        ToolOutput::Page { snippets, total, pages, .. } => {
            assert_eq!(snippets.len(), 2);
            assert_eq!(total, 5);
            assert_eq!(pages, 3);
            assert_eq!(snippets[0].title, "s2");
        }
        _ => panic!("expected a page"),
    }
}

#[test]
fn update_changes_only_supplied_fields() {
    let mut store = Store::open();
    let id = create(&mut store, "t", "go", None, "2025-06-15T10:30:00");
    let update = seekcode::requests::UpdateSnippetRequest {
        id,
        title: None,
        code: Some("new code".to_string()),
        language: None,
        tags: Some(vec!["x".to_string()]),
    };
    let st = service().update_snippet_at(&update, &"2025-06-16T00:00:00".to_string()).unwrap();
    assert_eq!(store.execute(&st).0, 1);
    match get(&mut store, id) {
        Ok(ToolOutput::Snippet { snippet }) => {
            assert_eq!(snippet.title, "t");
            assert_eq!(snippet.code, "new code");
            assert_eq!(snippet.tags, vec!["x".to_string()]);
            assert_eq!(snippet.created_at, "2025-06-15T10:30:00");
            assert_eq!(snippet.updated_at, "2025-06-16T00:00:00");
        }
        _ => panic!("expected the updated record"),
    }
    let missing = seekcode::requests::UpdateSnippetRequest { id: id + 100, ..update };
    let st = service().update_snippet_at(&missing, &"2025-06-16T00:00:00".to_string()).unwrap();
    assert!(matches!(seekcode::reply::update_reply(store.execute(&st).0), Err(ToolError::NotFound)));
}

#[test]
fn batch_delete_removes_the_listed_records() {
    let mut store = Store::open();
    let a = create(&mut store, "a", "go", None, "2025-06-13T00:00:00");
    let b = create(&mut store, "b", "go", None, "2025-06-14T00:00:00");
    let c = create(&mut store, "c", "rust", None, "2025-06-15T00:00:00");
    assert!(SnippetService::batch_delete_snippets(&Vec::new()).is_none());
    let st = SnippetService::batch_delete_snippets(&vec![a, c, c + 100]).unwrap();
    assert_eq!(st.sql, "DELETE FROM code_snippets WHERE id IN (?, ?, ?)");
    assert_eq!(store.execute(&st).0, 2);
    let left = store.fetch(&SnippetService::get_snippets());
    assert_eq!(left.iter().map(|s| s.id).collect::<Vec<_>>(), vec![b]);
    let one = SnippetService::batch_delete_snippets(&vec![b]).unwrap();
    assert_eq!(one.sql, "DELETE FROM code_snippets WHERE id IN (?)");
}

#[test]
fn listing_by_language_and_in_full_is_newest_first() {
    let mut store = Store::open();
    let a = create(&mut store, "a", "go", None, "2025-06-13T00:00:00");
    let b = create(&mut store, "b", "rust", None, "2025-06-14T00:00:00");
    let c = create(&mut store, "c", "go", None, "2025-06-15T00:00:00");
    let all = store.fetch(&SnippetService::get_snippets());
    assert_eq!(all.iter().map(|s| s.id).collect::<Vec<_>>(), vec![c, b, a]);
    let go = store.fetch(&SnippetService::get_snippets_by_language(&"go".to_string()));
    assert_eq!(go.iter().map(|s| s.id).collect::<Vec<_>>(), vec![c, a]);
    let found = store.fetch(&SnippetService::get_snippet_by_id(b));
    assert_eq!(found[0].language, "rust");
}

#[test]
fn stats_count_records_and_distinct_languages() {
    let mut store = Store::open();
    create(&mut store, "a", "go", None, "2025-06-13T00:00:00");
    create(&mut store, "b", "rust", None, "2025-06-14T00:00:00");
    create(&mut store, "c", "go", None, "2025-06-15T00:00:00");
    let (count, languages) = SnippetService::get_snippet_stats();
    let total = store.count(&count) as i64;
    let stats = DatabaseStats::of_snippets(total, store.languages(&languages));
    assert_eq!(stats.total_snippets, 3);
    assert_eq!(stats.total_clipboard_items, 0);
    assert_eq!(stats.languages, vec!["go".to_string(), "rust".to_string()]);
}

#[test]
fn update_never_moves_updated_at_before_created_at() {
    let mut store = Store::open();
    let id = create(&mut store, "t", "go", None, "2025-06-15T10:30:00");
    let update = seekcode::requests::UpdateSnippetRequest {
        id,
        title: Some("renamed".to_string()),
        code: None,
        language: None,
        tags: None,
    };
    let st = service().update_snippet_at(&update, &"2025-06-01T00:00:00".to_string()).unwrap();
    assert_eq!(store.execute(&st).0, 1);
    match get(&mut store, id) {
        Ok(ToolOutput::Snippet { snippet }) => {
            assert_eq!(snippet.title, "renamed");
            assert_eq!(snippet.updated_at, snippet.created_at);
        }
        _ => panic!("expected the updated record"),
    }
}
