use orb_billing::{ListParams, PageStep, Paginator};

/// Serves `items` in pages of `page_size`; the cursor is the offset of the next page.
fn serve(items: &[u32], page_size: usize, query: &[(String, String)]) -> (Vec<u32>, Option<String>) {
    let offset = query
        .iter()
        .find(|(k, _)| k == "cursor")
        .map(|(_, v)| v.parse::<usize>().unwrap())
        .unwrap_or(0);
    let end = (offset + page_size).min(items.len());
    let next = if offset + page_size < items.len() {
        Some((offset + page_size).to_string())
    } else {
        None
    };
    (items[offset..end].to_vec(), next)
}

/// Takes up to `limit` items from a fresh sequence; returns them and the number of fetches.
fn consume(items: &[u32], page_size: u64, limit: usize) -> (Vec<u32>, usize, Vec<Vec<(String, String)>>) {
    let mut pager: Paginator<u32> = ListParams::default().page_size(page_size).paginator();
    let mut out = Vec::new();
    let mut queries = Vec::new();
    while out.len() < limit {
        match pager.next_step() {
            PageStep::Item { item } => out.push(item),
            PageStep::Finished => break,
            PageStep::Fetch { query } => {
                let (data, next) = serve(items, page_size as usize, &query);
                queries.push(query);
                pager.receive_page(data, next);
            }
        }
    }
    let fetches = queries.len();
    (out, fetches, queries)
}

#[test]
fn exhaustion_yields_all_items_in_order() {
    let items: Vec<u32> = (0..7).collect();
    let (out, fetches, _) = consume(&items, 3, usize::MAX);
    assert_eq!(out, items);
    assert_eq!(fetches, 3);
}

#[test]
fn exhaustion_with_exact_pages() {
    let items: Vec<u32> = (10..16).collect();
    let (out, fetches, _) = consume(&items, 2, usize::MAX);
    assert_eq!(out, items);
    assert_eq!(fetches, 3);
}

#[test]
fn page_queries_carry_limit_and_cursor() {
    let items: Vec<u32> = (0..25).collect();
    let (_, _, queries) = consume(&items, 20, usize::MAX);
    assert_eq!(queries.len(), 2);
    assert_eq!(queries[0], vec![("limit".to_string(), "20".to_string())]);
    assert_eq!(
        queries[1],
        vec![
            ("limit".to_string(), "20".to_string()),
            ("cursor".to_string(), "20".to_string())
        ]
    );
}

#[test]
fn early_stop_fetches_no_more_than_needed() {
    let items: Vec<u32> = (0..10).collect();
    let (out, fetches, _) = consume(&items, 3, 4);
    assert_eq!(out, vec![0, 1, 2, 3]);
    assert_eq!(fetches, 2);
    let (out, fetches, _) = consume(&items, 3, 3);
    assert_eq!(out, vec![0, 1, 2]);
    assert_eq!(fetches, 1);
    let (out, fetches, _) = consume(&items, 3, 0);
    assert!(out.is_empty());
    assert_eq!(fetches, 0);
}

#[test]
fn null_cursor_ends_after_empty_page() {
    let mut pager: Paginator<u32> = Paginator::new(5);
    assert!(matches!(pager.next_step(), PageStep::Fetch { .. }));
    assert!(pager.is_awaiting());
    pager.receive_page(vec![], None);
    assert!(matches!(pager.next_step(), PageStep::Finished));
    assert!(matches!(pager.next_step(), PageStep::Finished));
}

#[test]
fn null_cursor_ends_after_full_page() {
    let mut pager: Paginator<u32> = Paginator::new(2);
    assert!(matches!(pager.next_step(), PageStep::Fetch { .. }));
    pager.receive_page(vec![7, 8], None);
    assert!(matches!(pager.next_step(), PageStep::Item { item: 7 }));
    assert!(matches!(pager.next_step(), PageStep::Item { item: 8 }));
    assert!(matches!(pager.next_step(), PageStep::Finished));
}

#[test]
fn empty_page_with_cursor_fetches_again() {
    let mut pager: Paginator<u32> = Paginator::new(2);
    assert!(matches!(pager.next_step(), PageStep::Fetch { .. }));
    pager.receive_page(vec![], Some("abc".to_string()));
    match pager.next_step() {
        PageStep::Fetch { query } => {
            assert_eq!(query[1], ("cursor".to_string(), "abc".to_string()));
        }
        _ => panic!("expected a fetch"),
    }
}

#[test]
fn failed_page_ends_sequence_keeping_earlier_items() {
    let mut pager: Paginator<u32> = Paginator::new(1);
    assert!(matches!(pager.next_step(), PageStep::Fetch { .. }));
    pager.receive_page(vec![1], Some("1".to_string()));
    assert!(matches!(pager.next_step(), PageStep::Item { item: 1 }));
    assert!(matches!(pager.next_step(), PageStep::Fetch { .. }));
    pager.receive_error();
    assert!(!pager.is_awaiting());
    assert!(matches!(pager.next_step(), PageStep::Finished));
}

#[test]
fn default_page_size_is_twenty() {
    let mut pager: Paginator<u32> = ListParams::default().paginator();
    match pager.next_step() {
        PageStep::Fetch { query } => {
            assert_eq!(query, vec![("limit".to_string(), "20".to_string())]);
        }
        _ => panic!("expected a fetch"),
    }
}

#[test]
fn large_page_size_is_written_in_decimal() {
    let mut pager: Paginator<u32> = Paginator::new(u64::MAX);
    match pager.next_step() {
        PageStep::Fetch { query } => {
            assert_eq!(query[0].1, "18446744073709551615");
        }
        _ => panic!("expected a fetch"),
    }
}

#[test]
fn asking_while_a_page_is_awaited_reports_the_end() {
    let mut pager: Paginator<u32> = Paginator::new(3);
    assert!(matches!(pager.next_step(), PageStep::Fetch { .. }));
    assert!(matches!(pager.next_step(), PageStep::Finished));
    assert!(pager.is_awaiting());
    pager.receive_page(vec![4], None);
    assert!(matches!(pager.next_step(), PageStep::Item { item: 4 }));
}

#[test]
fn opaque_cursors_are_passed_back_verbatim() {
    let mut pager: Paginator<u32> = Paginator::new(2);
    let mut seen = Vec::new();
    let mut fetches = 0;
    let pages: Vec<(Vec<u32>, Option<&str>)> =
        vec![(vec![1, 2], Some("zX9=")), (vec![3, 4], Some("a/b c")), (vec![5], None)];
    loop {
        match pager.next_step() {
            PageStep::Item { item } => seen.push(item),
            PageStep::Finished => break,
            PageStep::Fetch { query } => {
                let expected = match fetches {
                    0 => None,
                    i => pages[i - 1].1,
                };
                assert_eq!(query.get(1).map(|(_, v)| v.as_str()), expected);
                let (data, next) = &pages[fetches];
                pager.receive_page(data.clone(), next.map(|c| c.to_string()));
                fetches += 1;
            }
        }
    }
    assert_eq!(seen, vec![1, 2, 3, 4, 5]);
    assert_eq!(fetches, 3);
}
