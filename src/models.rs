use vstd::prelude::*;

verus! {

/// A snippet record as it is stored: the tags are kept as serialized text.
#[derive(Debug, Clone)]
pub struct CodeSnippet {
    pub id: i64,
    pub title: String,
    pub language: String,
    pub code: String,
    pub tags: String,
    pub created_at: String,
    pub updated_at: String,
}

/// Counts over the store.
#[derive(Debug, Clone)]
pub struct DatabaseStats {
    pub total_snippets: i64,
    pub total_clipboard_items: i64,
    pub languages: Vec<String>,
}

/// Configuration handed to the server at start.
#[derive(Debug, Clone)]
pub struct McpServerConfig {
    pub enabled: bool,
    pub host: String,
    pub port: u16,
    pub allow_query: bool,
    pub allow_create: bool,
    pub allow_update: bool,
    pub allow_delete: bool,
}

impl Default for McpServerConfig {
    /// Loopback on port 8080; queries and creation allowed, updates and
    /// deletion refused.
    fn default() -> (r: Self)
        ensures
            !r.enabled,
            r.host@ == "127.0.0.1"@,
            r.port == 8080,
            r.allow_query,
            r.allow_create,
            !r.allow_update,
            !r.allow_delete,
    {
        McpServerConfig {
            enabled: false,
            host: String::from_str("127.0.0.1"),
            port: 8080,
            allow_query: true,
            allow_create: true,
            allow_update: false,
            allow_delete: false,
        }
    }
}

impl DatabaseStats {
    /// The statistics of the snippet table, which holds no clipboard items.
    pub fn of_snippets(total_snippets: i64, languages: Vec<String>) -> (r: DatabaseStats)
        ensures
            r.total_snippets == total_snippets,
            r.total_clipboard_items == 0,
            r.languages@ == languages@,
    {
        DatabaseStats { total_snippets, total_clipboard_items: 0, languages }
    }
}

/// The port a start request uses when it names none.
pub const START_PORT: u16 = 9800;

impl McpServerConfig {
    /// The configuration of a start request: loopback on `START_PORT`,
    /// queries and creation allowed, updates and deletion refused, wherever
    /// the request leaves a value out.
    pub fn from_options(
        host: Option<String>,
        port: Option<u16>,
        allow_query: Option<bool>,
        allow_create: Option<bool>,
        allow_update: Option<bool>,
        allow_delete: Option<bool>,
    ) -> (r: Self)
        ensures
            r.enabled,
            r.host@ == (match host {
                Some(h) => h@,
                None => "127.0.0.1"@,
            }),
            r.port == (match port {
                Some(p) => p,
                None => START_PORT,
            }),
            r.allow_query == (match allow_query {
                Some(b) => b,
                None => true,
            }),
            r.allow_create == (match allow_create {
                Some(b) => b,
                None => true,
            }),
            r.allow_update == (match allow_update {
                Some(b) => b,
                None => false,
            }),
            r.allow_delete == (match allow_delete {
                Some(b) => b,
                None => false,
            }),
    {
        McpServerConfig {
            enabled: true,
            host: match host {
                Some(h) => h,
                None => String::from_str("127.0.0.1"),
            },
            port: match port {
                Some(p) => p,
                None => START_PORT,
            },
            allow_query: match allow_query {
                Some(b) => b,
                None => true,
            },
            allow_create: match allow_create {
                Some(b) => b,
                None => true,
            },
            allow_update: match allow_update {
                Some(b) => b,
                None => false,
            },
            allow_delete: match allow_delete {
                Some(b) => b,
                None => false,
            },
        }
    }
}

} // verus!
