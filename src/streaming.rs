use vstd::prelude::*;

use crate::client::Mastodon;
use crate::errors::MastodonError;
use crate::link::{find, find_in, lemma_find_at, range_eq};
use crate::text::{chars_of, push_chars, string_of};

verus! {

/// The serialisation of the URL parsed from `url` with the query pairs
/// `pairs` appended, form-encoded; none when `url` is not an absolute URL.
pub uninterp spec fn url_with_params(url: Seq<char>, pairs: Seq<(Seq<char>, Seq<char>)>) -> Option<
    Seq<char>,
>;

/// Views of a list of key-value pairs.
pub open spec fn pairs_view(pairs: Seq<(String, String)>) -> Seq<(Seq<char>, Seq<char>)> {
    Seq::new(pairs.len(), |i: int| (pairs[i].0@, pairs[i].1@))
}

/// Relies on `url::Url::parse_with_params`: parses an absolute URL and
/// appends the pairs to its query; fails only when the URL does not parse.
#[verifier::external_body]
fn parse_with_params(url: &str, pairs: &Vec<(String, String)>) -> (r: Result<String, url::ParseError>)
    ensures
        match r {
            Ok(s) => url_with_params(url@, pairs_view(pairs@)) == Some(s@),
            Err(_) => url_with_params(url@, pairs_view(pairs@)) is None,
        },
{
    match url::Url::parse_with_params(url, pairs.iter()) {
        Ok(u) => Ok(String::from(u)),
        Err(e) => Err(e),
    }
}

/// The socket scheme that stands for an HTTP scheme.
pub open spec fn socket_scheme(scheme: Seq<char>) -> Option<Seq<char>> {
    if scheme == "http"@ {
        Some("ws"@)
    } else if scheme == "https"@ {
        Some("wss"@)
    } else {
        None
    }
}

/// `url` with its scheme, the text before the first `:`, turned from
/// `http` into `ws` or from `https` into `wss`; none for another scheme.
pub open spec fn socket_url(url: Seq<char>) -> Option<Seq<char>> {
    match find(url, ':') {
        Some(i) => match socket_scheme(url.subrange(0, i)) {
            Some(s) => Some(s + url.subrange(i, url.len() as int)),
            None => None,
        },
        None => None,
    }
}

/// The message of the error for a URL whose scheme has no socket
/// counterpart: it names the scheme, or says that there is none.
pub open spec fn socket_error(url: Seq<char>) -> Seq<char> {
    match find(url, ':') {
        Some(i) => "Bad URL scheme: "@ + url.subrange(0, i),
        None => "Bad URL scheme!"@,
    }
}

/// The URL of the event stream `stream` at the instance, reached with an
/// HTTP request before the socket upgrade: the token and the stream name,
/// and the `extra` pair if there is one, in its query.
pub open spec fn stream_pairs(token: Seq<char>, stream: Seq<char>, extra: Option<(Seq<char>, Seq<char>)>) -> Seq<(Seq<char>, Seq<char>)> {
    seq![("access_token"@, token), ("stream"@, stream)] + match extra {
        Some(p) => seq![p],
        None => Seq::empty(),
    }
}

impl Mastodon {
    /// The HTTP URL of the event stream `stream`, with the token and the
    /// stream's name, and the `extra` pair (a tag or a list) if given, in
    /// its query; the URL parser's error when the base URL does not parse.
    pub fn streaming_url(&self, stream: &str, extra: Option<(&str, &str)>) -> (r: Result<String, MastodonError>)
        ensures
            match url_with_params(
                self.data.base@ + "/api/v1/streaming"@,
                stream_pairs(self.data.token@, stream@, match extra {
                    Some(p) => Some((p.0@, p.1@)),
                    None => None,
                }),
            ) {
                Some(u) => r matches Ok(s) && s@ == u,
                None => r matches Err(MastodonError::Url(_)),
            },
    {
        let base = self.route("/api/v1/streaming");
        let mut pairs: Vec<(String, String)> = Vec::new();
        pairs.push((string_of(chars_of("access_token").as_slice()), self.data.token.clone()));
        pairs.push((string_of(chars_of("stream").as_slice()), stream.to_owned()));
        match extra {
            Some((k, v)) => {
                pairs.push((k.to_owned(), v.to_owned()));
            },
            None => {},
        }
        assert(pairs_view(pairs@) =~= stream_pairs(self.data.token@, stream@, match extra {
            Some(p) => Some((p.0@, p.1@)),
            None => None,
        }));
        match parse_with_params(base.as_str(), &pairs) {
            Ok(s) => Ok(s),
            Err(e) => Err(MastodonError::Url(e)),
        }
    }
}

/// The socket URL that the event stream is read from, made from the HTTP
/// URL that the stream's request ended at: `http` becomes `ws` and `https`
/// becomes `wss`; any other scheme is refused.
pub fn websocket_url(url: &str) -> (r: Result<String, MastodonError>)
    ensures
        match socket_url(url@) {
            Some(u) => r matches Ok(s) && s@ == u,
            None => r matches Err(MastodonError::Other(m)) && m@ == socket_error(url@),
        },
{
    let s = chars_of(url);
    let n = s.len();
    let i = find_in(s.as_slice(), 0, n, ':');
    proof {
        lemma_find_at(s@, ':', i as int);
    }
    if i == n {
        return Err(MastodonError::Other(string_of(chars_of("Bad URL scheme!").as_slice())));
    }
    let http = chars_of("http");
    let https = chars_of("https");
    let mut out: Vec<char> = if range_eq(s.as_slice(), 0, i, http.as_slice()) {
        chars_of("ws")
    } else if range_eq(s.as_slice(), 0, i, https.as_slice()) {
        chars_of("wss")
    } else {
        let mut msg = chars_of("Bad URL scheme: ");
        push_chars(&mut msg, &s.as_slice()[0..i]);
        assert(s@.subrange(0, i as int) == url@.subrange(0, i as int));
        return Err(MastodonError::Other(string_of(msg.as_slice())));
    };
    push_chars(&mut out, &s.as_slice()[i..n]);
    Ok(string_of(out.as_slice()))
}

/// An event stream of the instance.
#[derive(Clone, Debug, PartialEq, Eq)]
pub enum Stream {
    /// Events for the authorised user: home timeline and notifications.
    User,
    /// All public statuses.
    Public,
    /// All local statuses.
    Local,
    /// All public statuses with this hashtag.
    PublicHashtag(String),
    /// All local statuses with this hashtag.
    LocalHashtag(String),
    /// The statuses of the list with this id.
    List(String),
    /// All direct messages.
    Direct,
}

/// The name by which the instance knows a stream.
pub open spec fn stream_name(s: Stream) -> Seq<char> {
    match s {
        Stream::User => "user"@,
        Stream::Public => "public"@,
        Stream::Local => "public:local"@,
        Stream::PublicHashtag(_) => "hashtag"@,
        Stream::LocalHashtag(_) => "hashtag:local"@,
        Stream::List(_) => "list"@,
        Stream::Direct => "direct"@,
    }
}

/// The query pair that picks the tag or the list of a stream, if it has one.
pub open spec fn stream_extra(s: Stream) -> Option<(Seq<char>, Seq<char>)> {
    match s {
        Stream::PublicHashtag(t) => Some(("tag"@, t@)),
        Stream::LocalHashtag(t) => Some(("tag"@, t@)),
        Stream::List(l) => Some(("list"@, l@)),
        _ => None,
    }
}

impl Mastodon {
    /// The HTTP URL of an event stream: the token, the stream's name and,
    /// for a hashtag or a list stream, its tag or list in the query.
    pub fn stream_url(&self, stream: &Stream) -> (r: Result<String, MastodonError>)
        ensures
            match url_with_params(
                self.data.base@ + "/api/v1/streaming"@,
                stream_pairs(self.data.token@, stream_name(*stream), stream_extra(*stream)),
            ) {
                Some(u) => r matches Ok(s) && s@ == u,
                None => r matches Err(MastodonError::Url(_)),
            },
    {
        match stream {
            Stream::User => self.streaming_url("user", None),
            Stream::Public => self.streaming_url("public", None),
            Stream::Local => self.streaming_url("public:local", None),
            Stream::PublicHashtag(t) => self.streaming_url("hashtag", Some(("tag", t.as_str()))),
            Stream::LocalHashtag(t) => self.streaming_url("hashtag:local", Some(("tag", t.as_str()))),
            Stream::List(l) => self.streaming_url("list", Some(("list", l.as_str()))),
            Stream::Direct => self.streaming_url("direct", None),
        }
    }
}

} // verus!
