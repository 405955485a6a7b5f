use elefren::{find_link, parse_links};

#[test]
fn link_header_with_next_and_prev() {
    let links = parse_links(
        "<https://example.com/api/v1/x?page=2>; rel=\"next\", <https://example.com/api/v1/x?page=1>; rel=\"prev\"",
    );
    assert_eq!(links.next.as_deref(), Some("https://example.com/api/v1/x?page=2"));
    assert_eq!(links.prev.as_deref(), Some("https://example.com/api/v1/x?page=1"));
}

#[test]
fn link_header_ignores_other_relations() {
    let links = parse_links(
        "<https://example.com/a>; rel=\"self\", <https://example.com/b>; rel=\"next\"",
    );
    assert_eq!(links.next.as_deref(), Some("https://example.com/b"));
    assert_eq!(links.prev, None);
    assert_eq!(find_link("<https://example.com/a>; rel=\"self\"", "self").as_deref(), Some("https://example.com/a"));
}

#[test]
fn link_header_skips_malformed_entries() {
    let links = parse_links("garbage; rel=\"next\", <https://example.com/b; rel=\"next\", <https://example.com/c>; rel=\"prev\"");
    assert_eq!(links.next, None);
    assert_eq!(links.prev.as_deref(), Some("https://example.com/c"));
}

#[test]
fn link_header_unquoted_relation_and_blanks() {
    let links = parse_links("   <u1> ;  rel=next  ,\t<u2>;rel=\"prev\"\t");
    assert_eq!(links.next.as_deref(), Some("u1"));
    assert_eq!(links.prev.as_deref(), Some("u2"));
}

#[test]
fn link_header_first_entry_wins() {
    let links = parse_links("<a>; rel=\"next\", <b>; rel=\"next\"");
    assert_eq!(links.next.as_deref(), Some("a"));
}

#[test]
fn link_header_relation_among_other_parameters() {
    let links = parse_links("<a>; title=\"x\"; rel=\"prev\"");
    assert_eq!(links.prev.as_deref(), Some("a"));
    assert_eq!(links.next, None);
}

#[test]
fn empty_link_header_has_no_links() {
    let links = parse_links("");
    assert_eq!(links.next, None);
    assert_eq!(links.prev, None);
}
