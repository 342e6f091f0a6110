use graphann::pagination::{Page, PageCursor};

#[test]
fn list_documents_streams_pages() {
    // Two pages: the first points at "c1", the second has no cursor.
    let pages = vec![
        Page { items: vec!["doc-1".to_string()], next_cursor: Some("c1".to_string()) },
        Page { items: vec!["doc-2".to_string()], next_cursor: None },
    ];
    let mut cursor = PageCursor::new();
    let mut requested = Vec::new();
    let mut total = 0usize;
    let mut it = pages.into_iter();
    while let Some(c) = cursor.next_request() {
        requested.push(c);
        let page = it.next().expect("no more pages served");
        total += page.items.len();
        cursor.on_page(page.next_cursor);
    }
    assert_eq!(total, 2);
    assert_eq!(requested, vec![None, Some("c1".to_string())]);
}

#[test]
fn error_ends_the_listing() {
    let mut cursor = PageCursor::new();
    assert_eq!(cursor.next_request(), Some(None));
    cursor.on_error();
    assert_eq!(cursor.next_request(), None);
    cursor.on_page(Some("late".to_string()));
    assert_eq!(cursor.next_request(), None);
}

#[test]
fn single_page_without_cursor() {
    let mut cursor = PageCursor::new();
    assert_eq!(cursor.next_request(), Some(None));
    cursor.on_page(None);
    assert!(matches!(cursor, PageCursor::Done));
    assert_eq!(cursor.next_request(), None);
}
