use elefren::StatusesRequest;

#[test]
fn querystring_of_media_pinned_since() {
    let request = StatusesRequest::new().only_media().pinned().since_id("foo");
    assert_eq!(&request.to_querystring()[..], "?only_media=1&pinned=1&since_id=foo");
}

#[test]
fn querystring_without_options_is_empty() {
    assert_eq!(StatusesRequest::new().to_querystring(), "");
    assert_eq!(StatusesRequest::default().to_querystring(), "");
}

#[test]
fn querystring_with_every_option_in_order() {
    let request = StatusesRequest::new()
        .limit(40)
        .since_id("7")
        .max_id("99")
        .pinned()
        .exclude_replies()
        .only_media();
    assert_eq!(
        request.to_querystring(),
        "?only_media=1&exclude_replies=1&pinned=1&max_id=99&since_id=7&limit=40"
    );
}

#[test]
fn querystring_of_a_single_limit() {
    assert_eq!(StatusesRequest::new().limit(0).to_querystring(), "?limit=0");
    assert_eq!(StatusesRequest::new().limit(1234567).to_querystring(), "?limit=1234567");
    assert_eq!(
        StatusesRequest::new().limit(usize::MAX).to_querystring(),
        format!("?limit={}", usize::MAX)
    );
}

#[test]
fn later_setting_replaces_earlier() {
    let request = StatusesRequest::new().max_id("1").max_id("2").exclude_replies();
    assert_eq!(request.to_querystring(), "?exclude_replies=1&max_id=2");
}
