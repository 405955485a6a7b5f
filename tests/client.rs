use elefren::routes::{Block, DeleteStatus, GetAccount, GetCard};
use elefren::streaming::Stream;
use elefren::{websocket_url, Data, Mastodon, MastodonBuilder, MastodonError, Method, StatusesRequest};

fn data() -> Data {
    Data {
        base: "https://example.com".to_string(),
        client_id: "taosuah".to_string(),
        client_secret: "htnjdiuae".to_string(),
        redirect: "https://example.com".to_string(),
        token: "tsaohueaheis".to_string(),
    }
}

#[test]
fn route_appends_to_the_base() {
    let client = Mastodon::new(data());
    assert_eq!(client.route("/api/v1/statuses"), "https://example.com/api/v1/statuses");
    assert_eq!(client.api_url("favourites"), "https://example.com/api/v1/favourites");
}

#[test]
fn id_routes_fill_the_placeholder() {
    let client = Mastodon::new(data());
    let r = client.route_get_id::<GetAccount>("42");
    assert_eq!(r.method, Method::Get);
    assert_eq!(r.url, "https://example.com/api/v1/accounts/42");
    assert_eq!(r.token, "tsaohueaheis");
    let r = client.route_post_id::<Block>("42");
    assert_eq!(r.method, Method::Post);
    assert_eq!(r.url, "https://example.com/api/v1/accounts/42/block");
    let r = client.route_delete_id::<DeleteStatus>("9");
    assert_eq!(r.method, Method::Delete);
    assert_eq!(r.url, "https://example.com/api/v1/statuses/9");
    let r = client.route_get_id::<GetCard>("");
    assert_eq!(r.url, "https://example.com/api/v1/statuses//card");
}

#[test]
fn statuses_url_carries_the_request() {
    let client = Mastodon::new(data());
    assert_eq!(
        client.statuses_url("user-id", None),
        "https://example.com/api/v1/accounts/user-id/statuses"
    );
    let request = StatusesRequest::new().only_media();
    assert_eq!(
        client.statuses_url("user-id", Some(&request)),
        "https://example.com/api/v1/accounts/user-id/statuses?only_media=1"
    );
}

#[test]
fn relationships_url_for_none_one_and_many() {
    let client = Mastodon::new(data());
    assert_eq!(
        client.relationships_url(&[]),
        "https://example.com/api/v1/accounts/relationships"
    );
    assert_eq!(
        client.relationships_url(&["1"]),
        "https://example.com/api/v1/accounts/relationships?id=1"
    );
    assert_eq!(
        client.relationships_url(&["1", "2", "3"]),
        "https://example.com/api/v1/accounts/relationships?id[]=1&id[]=2&id[]=3"
    );
}

#[test]
fn search_accounts_url_defaults_to_forty() {
    let client = Mastodon::new(data());
    assert_eq!(
        client.search_accounts_url("bob", None, false),
        "https://example.com/api/v1/accounts/search?q=bob&limit=40&following=false"
    );
    assert_eq!(
        client.search_accounts_url("bob", Some(5), true),
        "https://example.com/api/v1/accounts/search?q=bob&limit=5&following=true"
    );
}

#[test]
fn hashtag_timeline_url_local_or_not() {
    let client = Mastodon::new(data());
    assert_eq!(
        client.hashtag_timeline_url("coffee", true),
        "https://example.com/api/v1/timelines/tag/coffee?local=1"
    );
    assert_eq!(
        client.hashtag_timeline_url("coffee", false),
        "https://example.com/api/v1/timelines/tag/coffee"
    );
}

#[test]
fn builder_needs_data() {
    let r = MastodonBuilder::new().build();
    match r {
        Err(MastodonError::MissingField(m)) => assert_eq!(m, "missing field 'data'"),
        other => panic!("unexpected {:?}", other),
    }
    let mut builder = MastodonBuilder::default();
    builder.data(data());
    let client = builder.build().unwrap();
    assert_eq!(client.data, data());
}

#[test]
fn streaming_url_has_token_and_stream() {
    let client = Mastodon::new(data());
    assert_eq!(
        client.streaming_url("user", None).unwrap(),
        "https://example.com/api/v1/streaming?access_token=tsaohueaheis&stream=user"
    );
    assert_eq!(
        client.streaming_url("hashtag", Some(("tag", "rust lang"))).unwrap(),
        "https://example.com/api/v1/streaming?access_token=tsaohueaheis&stream=hashtag&tag=rust+lang"
    );
}

#[test]
fn streaming_url_refuses_a_bad_base() {
    let mut d = data();
    d.base = "not a url".to_string();
    let client = Mastodon::new(d);
    assert!(matches!(client.streaming_url("user", None), Err(MastodonError::Url(_))));
}

#[test]
fn websocket_url_rewrites_the_scheme() {
    assert_eq!(
        websocket_url("https://example.com/api/v1/streaming?stream=user").unwrap(),
        "wss://example.com/api/v1/streaming?stream=user"
    );
    assert_eq!(websocket_url("http://example.com/s").unwrap(), "ws://example.com/s");
    match websocket_url("ftp://example.com/s") {
        Err(MastodonError::Other(m)) => assert_eq!(m, "Bad URL scheme: ftp"),
        other => panic!("unexpected {:?}", other),
    }
    match websocket_url("no scheme") {
        Err(MastodonError::Other(m)) => assert_eq!(m, "Bad URL scheme!"),
        other => panic!("unexpected {:?}", other),
    }
}

#[test]
fn stream_kinds_name_their_stream() {
    let client = Mastodon::new(data());
    let base = "https://example.com/api/v1/streaming?access_token=tsaohueaheis";
    assert_eq!(client.stream_url(&Stream::User).unwrap(), format!("{}&stream=user", base));
    assert_eq!(client.stream_url(&Stream::Public).unwrap(), format!("{}&stream=public", base));
    assert_eq!(client.stream_url(&Stream::Local).unwrap(), format!("{}&stream=public%3Alocal", base));
    assert_eq!(client.stream_url(&Stream::Direct).unwrap(), format!("{}&stream=direct", base));
    assert_eq!(
        client.stream_url(&Stream::PublicHashtag("rust".to_string())).unwrap(),
        format!("{}&stream=hashtag&tag=rust", base)
    );
    assert_eq!(
        client.stream_url(&Stream::LocalHashtag("rust".to_string())).unwrap(),
        format!("{}&stream=hashtag%3Alocal&tag=rust", base)
    );
    assert_eq!(
        client.stream_url(&Stream::List("12".to_string())).unwrap(),
        format!("{}&stream=list&list=12", base)
    );
}
