use vstd::prelude::*;

verus! {

/// The most records that one search returns.
pub const SEARCH_CAP: i64 = 50;

/// A value bound to a `?` placeholder of a statement.
#[derive(Debug, Clone)]
pub enum SqlValue {
    Text(String),
    Integer(i64),
}

/// The mathematical value of a bound parameter.
pub enum SqlParam {
    Text(Seq<char>),
    Integer(int),
}

impl View for SqlValue {
    type V = SqlParam;

    open spec fn view(&self) -> SqlParam {
        match self {
            SqlValue::Text(s) => SqlParam::Text(s@),
            SqlValue::Integer(i) => SqlParam::Integer(*i as int),
        }
    }
}

/// A statement against the snippet table: its text and the values bound to
/// its placeholders, in order.
#[derive(Debug, Clone)]
pub struct Statement {
    pub sql: String,
    pub params: Vec<SqlValue>,
}

/// The mathematical value of a statement.
pub struct StatementView {
    pub sql: Seq<char>,
    pub params: Seq<SqlParam>,
}

impl View for Statement {
    type V = StatementView;

    open spec fn view(&self) -> StatementView {
        StatementView { sql: self.sql@, params: self.params@.map_values(|p: SqlValue| p@) }
    }
}

/// The characters of an optional string.
pub open spec fn opt_text(o: Option<String>) -> Option<Seq<char>> {
    match o {
        Some(s) => Some(s@),
        None => None,
    }
}

pub open spec fn select_columns_sql() -> Seq<char> {
    "SELECT id, title, code, language, tags, created_at, updated_at FROM code_snippets"@
}

pub open spec fn insert_sql() -> Seq<char> {
    "INSERT INTO code_snippets (title, code, language, tags, created_at, updated_at) VALUES (?, ?, ?, ?, ?, ?)"@
}

/// Insertion of a record; both timestamps take the same value.
pub open spec fn insert_view(
    title: Seq<char>,
    code: Seq<char>,
    language: Seq<char>,
    tags: Seq<char>,
    now: Seq<char>,
) -> StatementView {
    StatementView {
        sql: insert_sql(),
        params: seq![
            SqlParam::Text(title),
            SqlParam::Text(code),
            SqlParam::Text(language),
            SqlParam::Text(tags),
            SqlParam::Text(now),
            SqlParam::Text(now),
        ],
    }
}

/// The record with a given id.
pub open spec fn by_id_view(id: int) -> StatementView {
    StatementView {
        sql: select_columns_sql() + " WHERE id = ?"@,
        params: seq![SqlParam::Integer(id)],
    }
}

/// Records whose title or code holds the query (every record for an empty
/// query), of the given language if one is given, newest update first, at
/// most `SEARCH_CAP` of them.
pub open spec fn search_view(query: Seq<char>, language: Option<Seq<char>>) -> StatementView {
    let text_clause = if query.len() == 0 {
        Seq::empty()
    } else {
        " AND (instr(title, ?) > 0 OR instr(code, ?) > 0)"@
    };
    let text_params = if query.len() == 0 {
        Seq::empty()
    } else {
        seq![SqlParam::Text(query), SqlParam::Text(query)]
    };
    let language_clause = match language {
        Some(_) => " AND language = ?"@,
        None => Seq::empty(),
    };
    let language_params = match language {
        Some(l) => seq![SqlParam::Text(l)],
        None => Seq::empty(),
    };
    StatementView {
        sql: select_columns_sql() + " WHERE 1=1"@ + text_clause + language_clause
            + " ORDER BY updated_at DESC LIMIT ?"@,
        params: text_params + language_params + seq![SqlParam::Integer(SEARCH_CAP as int)],
    }
}

/// One page of records, newest update first.
pub open spec fn page_view(limit: int, offset: int) -> StatementView {
    StatementView {
        sql: select_columns_sql() + " ORDER BY updated_at DESC LIMIT ? OFFSET ?"@,
        params: seq![SqlParam::Integer(limit), SqlParam::Integer(offset)],
    }
}

pub open spec fn count_view() -> StatementView {
    StatementView { sql: "SELECT COUNT(*) AS count FROM code_snippets"@, params: Seq::empty() }
}

pub open spec fn languages_view() -> StatementView {
    StatementView {
        sql: "SELECT DISTINCT language FROM code_snippets ORDER BY language"@,
        params: Seq::empty(),
    }
}

pub open spec fn delete_view(id: int) -> StatementView {
    StatementView {
        sql: "DELETE FROM code_snippets WHERE id = ?"@,
        params: seq![SqlParam::Integer(id)],
    }
}

/// The assignment of a column that is set only when a value is supplied.
pub open spec fn assignment(value: Option<Seq<char>>, clause: Seq<char>) -> Seq<char> {
    if value is Some {
        clause
    } else {
        Seq::empty()
    }
}

pub open spec fn binding(value: Option<Seq<char>>) -> Seq<SqlParam> {
    match value {
        Some(v) => seq![SqlParam::Text(v)],
        None => Seq::empty(),
    }
}

/// Update of the supplied columns of one record, which always refreshes
/// `updated_at`, never to a time before `created_at`.
pub open spec fn update_view(
    id: int,
    title: Option<Seq<char>>,
    code: Option<Seq<char>>,
    language: Option<Seq<char>>,
    tags: Option<Seq<char>>,
    now: Seq<char>,
) -> StatementView {
    StatementView {
        sql: "UPDATE code_snippets SET "@ + assignment(title, "title = ?, "@) + assignment(
            code,
            "code = ?, "@,
        ) + assignment(language, "language = ?, "@) + assignment(tags, "tags = ?, "@)
            + "updated_at = max(created_at, ?) WHERE id = ?"@,
        params: binding(title) + binding(code) + binding(language) + binding(tags) + seq![
            SqlParam::Text(now),
            SqlParam::Integer(id),
        ],
    }
}

pub open spec fn table_sql() -> Seq<char> {
    "CREATE TABLE IF NOT EXISTS code_snippets (id INTEGER PRIMARY KEY AUTOINCREMENT, title TEXT NOT NULL, language TEXT NOT NULL, code TEXT NOT NULL, tags TEXT NOT NULL DEFAULT '[]', created_at TEXT NOT NULL, updated_at TEXT NOT NULL)"@
}

pub open spec fn language_index_sql() -> Seq<char> {
    "CREATE INDEX IF NOT EXISTS idx_snippets_language ON code_snippets(language)"@
}

pub open spec fn updated_index_sql() -> Seq<char> {
    "CREATE INDEX IF NOT EXISTS idx_snippets_updated_at ON code_snippets(updated_at)"@
}

/// The snippet table, whose ids are never reused, and its indexes on
/// `language` and `updated_at`.
pub open spec fn schema_view() -> Seq<StatementView> {
    seq![
        StatementView { sql: table_sql(), params: Seq::empty() },
        StatementView { sql: language_index_sql(), params: Seq::empty() },
        StatementView { sql: updated_index_sql(), params: Seq::empty() },
    ]
}

/// Every record, newest update first.
pub open spec fn all_view() -> StatementView {
    StatementView { sql: select_columns_sql() + " ORDER BY updated_at DESC"@, params: Seq::empty() }
}

/// The records of one language, newest update first.
pub open spec fn language_view(language: Seq<char>) -> StatementView {
    StatementView {
        sql: select_columns_sql() + " WHERE language = ? ORDER BY updated_at DESC"@,
        params: seq![SqlParam::Text(language)],
    }
}

/// `n` placeholders separated by commas.
pub open spec fn placeholders(n: nat) -> Seq<char>
    decreases n,
{
    if n == 0 {
        Seq::empty()
    } else if n == 1 {
        "?"@
    } else {
        placeholders((n - 1) as nat) + ", ?"@
    }
}

/// Deletion of every record whose id is listed.
pub open spec fn batch_delete_view(ids: Seq<i64>) -> StatementView {
    StatementView {
        sql: "DELETE FROM code_snippets WHERE id IN ("@ + placeholders(ids.len()) + ")"@,
        params: ids.map_values(|id: i64| SqlParam::Integer(id as int)),
    }
}

fn select_columns() -> (r: String)
    ensures
        r@ == select_columns_sql(),
{
    String::from_str("SELECT id, title, code, language, tags, created_at, updated_at FROM code_snippets")
}

fn push_text(params: &mut Vec<SqlValue>, value: &String)
    ensures
        final(params)@.map_values(|p: SqlValue| p@) == old(params)@.map_values(|p: SqlValue| p@).push(
            SqlParam::Text(value@),
        ),
{
    params.push(SqlValue::Text(value.clone()));
    assert(final(params)@.map_values(|p: SqlValue| p@) =~= old(params)@.map_values(|p: SqlValue| p@).push(
        SqlParam::Text(value@),
    ));
}

fn push_integer(params: &mut Vec<SqlValue>, value: i64)
    ensures
        final(params)@.map_values(|p: SqlValue| p@) == old(params)@.map_values(|p: SqlValue| p@).push(
            SqlParam::Integer(value as int),
        ),
{
    params.push(SqlValue::Integer(value));
    assert(final(params)@.map_values(|p: SqlValue| p@) =~= old(params)@.map_values(|p: SqlValue| p@).push(
        SqlParam::Integer(value as int),
    ));
}

fn set_column(sql: &mut String, params: &mut Vec<SqlValue>, value: &Option<String>, clause: &str)
    ensures
        final(sql)@ == old(sql)@ + assignment(opt_text(*value), clause@),
        final(params)@.map_values(|p: SqlValue| p@) == old(params)@.map_values(|p: SqlValue| p@)
            + binding(opt_text(*value)),
{
    match value {
        Some(v) => {
            sql.append(clause);
            push_text(params, v);
            assert(final(params)@.map_values(|p: SqlValue| p@) =~= old(params)@.map_values(
                |p: SqlValue| p@,
            ) + binding(opt_text(*value)));
        },
        None => {
            assert(final(sql)@ =~= old(sql)@ + assignment(opt_text(*value), clause@));
            assert(final(params)@.map_values(|p: SqlValue| p@) =~= old(params)@.map_values(
                |p: SqlValue| p@,
            ) + binding(opt_text(*value)));
        },
    }
}

impl Statement {
    /// The statements that create the snippet table and its indexes.
    pub fn schema() -> (r: Vec<Statement>)
        ensures
            r@.map_values(|s: Statement| s@) == schema_view(),
    {
        let table = Statement {
            sql: String::from_str(
                "CREATE TABLE IF NOT EXISTS code_snippets (id INTEGER PRIMARY KEY AUTOINCREMENT, title TEXT NOT NULL, language TEXT NOT NULL, code TEXT NOT NULL, tags TEXT NOT NULL DEFAULT '[]', created_at TEXT NOT NULL, updated_at TEXT NOT NULL)",
            ),
            params: Vec::new(),
        };
        let by_language = Statement {
            sql: String::from_str(
                "CREATE INDEX IF NOT EXISTS idx_snippets_language ON code_snippets(language)",
            ),
            params: Vec::new(),
        };
        let by_update = Statement {
            sql: String::from_str(
                "CREATE INDEX IF NOT EXISTS idx_snippets_updated_at ON code_snippets(updated_at)",
            ),
            params: Vec::new(),
        };
        assert(table@.params =~= Seq::<SqlParam>::empty());
        assert(by_language@.params =~= Seq::<SqlParam>::empty());
        assert(by_update@.params =~= Seq::<SqlParam>::empty());
        let r = vec![table, by_language, by_update];
        assert(r@.map_values(|s: Statement| s@) =~= schema_view());
        r
    }

    pub fn all() -> (r: Statement)
        ensures
            r@ == all_view(),
    {
        let r = Statement { sql: select_columns().concat(" ORDER BY updated_at DESC"), params: Vec::new() };
        assert(r@.params =~= all_view().params);
        r
    }

    pub fn by_language(language: &String) -> (r: Statement)
        ensures
            r@ == language_view(language@),
    {
        let mut params: Vec<SqlValue> = Vec::new();
        push_text(&mut params, language);
        let r = Statement {
            sql: select_columns().concat(" WHERE language = ? ORDER BY updated_at DESC"),
            params,
        };
        assert(r@.params =~= language_view(language@).params);
        r
    }

    /// Deletion of the listed records; none for an empty list.
    pub fn batch_delete(ids: &Vec<i64>) -> (r: Option<Statement>)
        ensures
            ids@.len() == 0 <==> r is None,
            r matches Some(st) ==> st@ == batch_delete_view(ids@),
    {
        if ids.len() == 0 {
            return None;
        }
        let mut sql = String::from_str("DELETE FROM code_snippets WHERE id IN (");
        let ghost prefix = sql@;
        let mut params: Vec<SqlValue> = Vec::new();
        let mut i: usize = 0;
        while i < ids.len()
            invariant
                i <= ids.len(),
                sql@ == prefix + placeholders(i as nat),
                params@.map_values(|p: SqlValue| p@) == ids@.subrange(0, i as int).map_values(
                    |id: i64| SqlParam::Integer(id as int),
                ),
            decreases ids.len() - i,
        {
            let ghost before = sql@;
            if i == 0 {
                sql.append("?");
                assert(sql@ =~= prefix + placeholders(1));
            } else {
                sql.append(", ?");
                assert(sql@ =~= prefix + placeholders((i + 1) as nat));
            }
            push_integer(&mut params, ids[i]);
            i = i + 1;
            assert(params@.map_values(|p: SqlValue| p@) =~= ids@.subrange(0, i as int).map_values(
                |id: i64| SqlParam::Integer(id as int),
            ));
        }
        sql.append(")");
        assert(ids@.subrange(0, ids.len() as int) =~= ids@);
        Some(Statement { sql, params })
    }

    pub fn insert(
        title: &String,
        code: &String,
        language: &String,
        tags: &String,
        now: &String,
    ) -> (r: Statement)
        ensures
            r@ == insert_view(title@, code@, language@, tags@, now@),
    {
        let mut params: Vec<SqlValue> = Vec::new();
        push_text(&mut params, title);
        push_text(&mut params, code);
        push_text(&mut params, language);
        push_text(&mut params, tags);
        push_text(&mut params, now);
        push_text(&mut params, now);
        let r = Statement {
            sql: String::from_str(
                "INSERT INTO code_snippets (title, code, language, tags, created_at, updated_at) VALUES (?, ?, ?, ?, ?, ?)",
            ),
            params,
        };
        assert(r@.params =~= insert_view(title@, code@, language@, tags@, now@).params);
        r
    }

    pub fn by_id(id: i64) -> (r: Statement)
        ensures
            r@ == by_id_view(id as int),
    {
        let mut params: Vec<SqlValue> = Vec::new();
        push_integer(&mut params, id);
        let r = Statement { sql: select_columns().concat(" WHERE id = ?"), params };
        assert(r@.params =~= by_id_view(id as int).params);
        r
    }

    pub fn search(query: &String, language: &Option<String>) -> (r: Statement)
        ensures
            r@ == search_view(query@, opt_text(*language)),
    {
        let mut sql = select_columns().concat(" WHERE 1=1");
        let mut params: Vec<SqlValue> = Vec::new();
        let ghost sql0 = sql@;
        if !query.as_str().is_empty() {
            sql.append(" AND (instr(title, ?) > 0 OR instr(code, ?) > 0)");
            push_text(&mut params, query);
            push_text(&mut params, query);
        }
        let ghost sql1 = sql@;
        let ghost params1 = params@.map_values(|p: SqlValue| p@);
        match language {
            Some(l) => {
                sql.append(" AND language = ?");
                push_text(&mut params, l);
            },
            None => {},
        }
        let ghost sql2 = sql@;
        let ghost params2 = params@.map_values(|p: SqlValue| p@);
        sql.append(" ORDER BY updated_at DESC LIMIT ?");
        push_integer(&mut params, SEARCH_CAP);
        let r = Statement { sql, params };
        proof {
            let v = search_view(query@, opt_text(*language));
            if query@.len() == 0 {
                assert(sql1 =~= sql0 + Seq::<char>::empty());
                assert(params1 =~= Seq::<SqlParam>::empty());
            } else {
                assert(params1 =~= seq![SqlParam::Text(query@), SqlParam::Text(query@)]);
            }
            if language.is_none() {
                assert(sql2 =~= sql1 + Seq::<char>::empty());
                assert(params2 =~= params1 + Seq::<SqlParam>::empty());
            } else {
                assert(params2 =~= params1 + seq![SqlParam::Text(language->0@)]);
            }
            assert(r@.sql =~= v.sql);
            assert(r@.params =~= v.params);
        }
        r
    }

    pub fn page(limit: i64, offset: i64) -> (r: Statement)
        ensures
            r@ == page_view(limit as int, offset as int),
    {
        let mut params: Vec<SqlValue> = Vec::new();
        push_integer(&mut params, limit);
        push_integer(&mut params, offset);
        let r = Statement {
            sql: select_columns().concat(" ORDER BY updated_at DESC LIMIT ? OFFSET ?"),
            params,
        };
        assert(r@.params =~= page_view(limit as int, offset as int).params);
        r
    }

    pub fn count() -> (r: Statement)
        ensures
            r@ == count_view(),
    {
        let r = Statement {
            sql: String::from_str("SELECT COUNT(*) AS count FROM code_snippets"),
            params: Vec::new(),
        };
        assert(r@.params =~= count_view().params);
        r
    }

    pub fn languages() -> (r: Statement)
        ensures
            r@ == languages_view(),
    {
        let r = Statement {
            sql: String::from_str("SELECT DISTINCT language FROM code_snippets ORDER BY language"),
            params: Vec::new(),
        };
        assert(r@.params =~= languages_view().params);
        r
    }

    pub fn delete(id: i64) -> (r: Statement)
        ensures
            r@ == delete_view(id as int),
    {
        let mut params: Vec<SqlValue> = Vec::new();
        push_integer(&mut params, id);
        let r = Statement { sql: String::from_str("DELETE FROM code_snippets WHERE id = ?"), params };
        assert(r@.params =~= delete_view(id as int).params);
        r
    }

    pub fn update(
        id: i64,
        title: &Option<String>,
        code: &Option<String>,
        language: &Option<String>,
        tags: &Option<String>,
        now: &String,
    ) -> (r: Statement)
        ensures
            r@ == update_view(
                id as int,
                opt_text(*title),
                opt_text(*code),
                opt_text(*language),
                opt_text(*tags),
                now@,
            ),
    {
        let mut sql = String::from_str("UPDATE code_snippets SET ");
        let mut params: Vec<SqlValue> = Vec::new();
        let ghost initial = params@.map_values(|p: SqlValue| p@);
        set_column(&mut sql, &mut params, title, "title = ?, ");
        set_column(&mut sql, &mut params, code, "code = ?, ");
        set_column(&mut sql, &mut params, language, "language = ?, ");
        set_column(&mut sql, &mut params, tags, "tags = ?, ");
        sql.append("updated_at = max(created_at, ?) WHERE id = ?");
        push_text(&mut params, now);
        push_integer(&mut params, id);
        let r = Statement { sql, params };
        proof {
            let v = update_view(
                id as int,
                opt_text(*title),
                opt_text(*code),
                opt_text(*language),
                opt_text(*tags),
                now@,
            );
            assert(initial =~= Seq::<SqlParam>::empty());
            assert(r@.params =~= v.params);
        }
        r
    }
}

} // verus!
