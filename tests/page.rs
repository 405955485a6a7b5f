use elefren::{MastodonError, Page, Step};

fn ok_batch(items: Vec<u32>) -> impl FnOnce() -> Result<Vec<u32>, MastodonError> {
    move || Ok(items)
}

#[test]
fn page_without_link_header_is_terminal() {
    let page = Page::new(200, None, ok_batch(vec![1, 2, 3])).unwrap();
    assert_eq!(page.items(), &vec![1, 2, 3]);
    assert_eq!(page.next_url(), None);
    assert_eq!(page.prev_url(), None);
    let mut stream = page.items_iter();
    assert!(matches!(stream.step(), Step::Item(1)));
    assert!(matches!(stream.step(), Step::Item(2)));
    assert!(matches!(stream.step(), Step::Item(3)));
    assert!(matches!(stream.step(), Step::End));
    assert!(matches!(stream.step(), Step::End));
}

#[test]
fn page_reads_both_links() {
    let link = "<https://example.com/api/v1/x?page=2>; rel=\"next\", <https://example.com/api/v1/x?page=1>; rel=\"prev\"";
    let page = Page::new(200, Some(link), ok_batch(vec![5])).unwrap();
    assert_eq!(page.next_url().as_deref(), Some("https://example.com/api/v1/x?page=2"));
    assert_eq!(page.prev_url().as_deref(), Some("https://example.com/api/v1/x?page=1"));
}

#[test]
fn page_of_error_status_is_not_decoded() {
    let r: Result<Page<u32>, MastodonError> =
        Page::new(404, None, || panic!("a 4xx body is not decoded"));
    assert!(matches!(r, Err(MastodonError::Client(404))));
}

#[test]
fn next_then_prev_restores_the_first_batch() {
    let a_link = "<https://example.com/b>; rel=\"next\"";
    let b_link = "<https://example.com/a>; rel=\"prev\"";
    let mut page = Page::new(200, Some(a_link), ok_batch(vec![1, 2])).unwrap();
    assert_eq!(page.next_url().as_deref(), Some("https://example.com/b"));
    page.load(200, Some(b_link), ok_batch(vec![3, 4, 5])).unwrap();
    assert_eq!(page.items(), &vec![3, 4, 5]);
    assert_eq!(page.next_url(), None);
    assert_eq!(page.prev_url().as_deref(), Some("https://example.com/a"));
    page.load(200, Some(a_link), ok_batch(vec![1, 2])).unwrap();
    assert_eq!(page.items(), &vec![1, 2]);
    assert_eq!(page.next_url().as_deref(), Some("https://example.com/b"));
}

#[test]
fn failed_load_leaves_the_page_unchanged() {
    let a_link = "<https://example.com/b>; rel=\"next\"";
    let mut page = Page::new(200, Some(a_link), ok_batch(vec![1, 2])).unwrap();
    let r = page.load(500, None, || panic!("a 5xx body is not decoded"));
    assert!(matches!(r, Err(MastodonError::Server(500))));
    let r = page.load(200, None, || Err(MastodonError::Other("bad".to_string())));
    assert!(matches!(r, Err(MastodonError::Other(_))));
    assert_eq!(page.items(), &vec![1, 2]);
    assert_eq!(page.next_url().as_deref(), Some("https://example.com/b"));
    assert_eq!(page.into_items(), vec![1, 2]);
}

#[test]
fn stream_yields_every_batch_in_order_then_ends() {
    let batches: Vec<(Vec<u32>, Option<&str>)> = vec![
        (vec![2, 3, 5], Some("<p3>; rel=\"next\", <p1>; rel=\"prev\"")),
        (vec![], Some("<p4>; rel=\"next\"")),
        (vec![7, 11], None),
    ];
    let first = Page::new(200, Some("<p2>; rel=\"next\""), ok_batch(vec![1])).unwrap();
    let mut stream = first.items_iter();
    let mut seen = Vec::new();
    let mut fetched = Vec::new();
    let mut replies = batches.into_iter();
    loop {
        match stream.step() {
            Step::Item(x) => seen.push(x),
            Step::Fetch(url) => {
                fetched.push(url);
                let (items, link) = replies.next().expect("asked for a batch past the last");
                stream.load(200, link, ok_batch(items)).unwrap();
            }
            Step::End => break,
        }
    }
    assert_eq!(seen, vec![1, 2, 3, 5, 7, 11]);
    assert_eq!(fetched, vec!["p2".to_string(), "p3".to_string(), "p4".to_string()]);
    assert!(replies.next().is_none());
    assert!(matches!(stream.step(), Step::End));
}

#[test]
fn stream_load_failure_keeps_its_state() {
    let first = Page::new(200, Some("<p2>; rel=\"next\""), ok_batch(vec![])).unwrap();
    let mut stream = first.items_iter();
    match stream.step() {
        Step::Fetch(url) => assert_eq!(url, "p2"),
        _ => panic!("expected a fetch"),
    }
    assert!(stream.load(502, None, || panic!("a 5xx body is not decoded")).is_err());
    match stream.step() {
        Step::Fetch(url) => assert_eq!(url, "p2"),
        _ => panic!("expected the same fetch again"),
    }
}
