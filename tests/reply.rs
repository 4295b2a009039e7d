use seekcode::models::CodeSnippet;
use seekcode::reply::{
    delete_reply, page_count, page_reply, records_from_rows, search_reply, snippet_reply,
    update_reply, SnippetRecord, ToolOutput,
};
use seekcode::router::ToolError;

fn row(id: i64, tags: &str) -> CodeSnippet {
    CodeSnippet {
        id,
        title: format!("title {}", id),
        language: "go".to_string(),
        code: "package main".to_string(),
        tags: tags.to_string(),
        created_at: "2025-06-13 09:20:00".to_string(),
        updated_at: "2025-06-14 09:20:00".to_string(),
    }
}

#[test]
fn page_count_rounds_up() {
    assert_eq!(page_count(5, 2), 3);
    assert_eq!(page_count(4, 2), 2);
    assert_eq!(page_count(0, 20), 0);
    assert_eq!(page_count(1, 20), 1);
    assert_eq!(page_count(7, 0), 0);
    assert_eq!(page_count(u64::MAX, 1), u64::MAX);
    assert_eq!(page_count(u64::MAX, 2), u64::MAX / 2 + 1);
}

#[test]
fn record_reads_tags_out_of_the_row() {
    let r = SnippetRecord::from_row(&row(3, r#"["golang","http"]"#));
    assert_eq!(r.id, 3);
    assert_eq!(r.title, "title 3");
    assert_eq!(r.tags, vec!["golang".to_string(), "http".to_string()]);
    assert_eq!(r.created_at, "2025-06-13 09:20:00");
    assert_eq!(r.updated_at, "2025-06-14 09:20:00");
    assert!(SnippetRecord::from_row(&row(4, "")).tags.is_empty());
    assert!(SnippetRecord::from_row(&row(5, "[broken")).tags.is_empty());
}

#[test]
fn missing_record_is_not_found() {
    assert!(matches!(snippet_reply(None), Err(ToolError::NotFound)));
    match snippet_reply(Some(row(1, "[]"))) {
        Ok(ToolOutput::Snippet { snippet }) => assert_eq!(snippet.id, 1),
        _ => panic!("expected the record"),
    }
}

#[test]
fn writes_that_touch_no_row_are_not_found() {
    assert!(matches!(update_reply(0), Err(ToolError::NotFound)));
    assert!(matches!(delete_reply(0), Err(ToolError::NotFound)));
    assert!(matches!(update_reply(1), Ok(ToolOutput::Updated)));
    assert!(matches!(delete_reply(1), Ok(ToolOutput::Deleted)));
}

#[test]
fn search_and_page_keep_the_row_order() {
    let rows = vec![row(3, "[]"), row(1, "[]")];
    assert_eq!(records_from_rows(&rows).iter().map(|r| r.id).collect::<Vec<_>>(), vec![3, 1]);
    match search_reply(&rows) {
        ToolOutput::Snippets { snippets } => assert_eq!(snippets.len(), 2),
        _ => panic!("expected search results"),
    }
    match page_reply(2, 2, &rows, 5) {
        ToolOutput::Page { snippets, page, limit, total, pages } => {
            assert_eq!(snippets.len(), 2);
            assert_eq!((page, limit, total, pages), (2, 2, 5, 3));
        }
        _ => panic!("expected a page"),
    }
}

#[test]
fn search_reply_keeps_at_most_fifty() {
    let rows: Vec<CodeSnippet> = (0..60).map(|i| row(i, "[]")).collect();
    match search_reply(&rows) {
        ToolOutput::Snippets { snippets } => {
            assert_eq!(snippets.len(), 50);
            assert_eq!(snippets[49].id, 49);
        }
        _ => panic!("expected search results"),
    }
    match search_reply(&Vec::new()) {
        ToolOutput::Snippets { snippets } => assert!(snippets.is_empty()),
        _ => panic!("expected search results"),
    }
}
