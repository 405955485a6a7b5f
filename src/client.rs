use vstd::prelude::*;

use crate::errors::MastodonError;
use crate::request::{lemma_query_push, query_of, StatusesRequest};
use crate::routes::{fill, push_filled, IdDeleteRoute, IdGetRoute, IdPostRoute, IdRoute, Method};
use crate::text::{chars_of, decimal, push_chars, push_decimal, push_str, string_of};

verus! {

/// What the client keeps of its registration with an instance.
#[derive(Clone, Debug, PartialEq, Eq)]
pub struct Data {
    /// Base URL of the instance, such as `https://mastodon.social`.
    pub base: String,
    /// The client's id given by the instance.
    pub client_id: String,
    /// The client's secret given by the instance.
    pub client_secret: String,
    /// URL to redirect back to the application after signing up.
    pub redirect: String,
    /// The client's access token.
    pub token: String,
}

/// A request ready to be sent: its method, its URL, and the bearer token
/// that authorises it.
#[derive(Clone, Debug, PartialEq, Eq)]
pub struct Request {
    /// The HTTP method.
    pub method: Method,
    /// The full URL.
    pub url: String,
    /// The bearer token sent in the `Authorization` header.
    pub token: String,
}

/// A client of one instance: builds the requests of the API's endpoints.
#[derive(Clone, Debug, PartialEq, Eq)]
pub struct Mastodon {
    /// What the client knows of its registration.
    pub data: Data,
}

/// The query of a request for the relationships with several accounts:
/// `?id=x` for one account, else `?id[]=x&id[]=y...`; nothing for none.
pub open spec fn relationships_query(ids: Seq<Seq<char>>) -> Seq<char> {
    if ids.len() == 1 {
        "?id="@ + ids[0]
    } else {
        query_of(Seq::new(ids.len(), |i: int| "id[]="@ + ids[i]))
    }
}

/// The text of a boolean in a query.
pub open spec fn bool_text(b: bool) -> Seq<char> {
    if b {
        "true"@
    } else {
        "false"@
    }
}

/// Views of a slice of string slices.
pub open spec fn strs_view(ids: Seq<&str>) -> Seq<Seq<char>> {
    Seq::new(ids.len(), |i: int| ids[i]@)
}

impl Mastodon {
    /// A client for the registration `data`.
    pub fn new(data: Data) -> (r: Mastodon)
        ensures
            r.data == data,
    {
        Mastodon { data }
    }

    /// `path` appended to the instance's base URL.
    pub fn route(&self, path: &str) -> (r: String)
        ensures
            r@ == self.data.base@ + path@,
    {
        let mut out = chars_of(self.data.base.as_str());
        push_str(&mut out, path);
        string_of(out.as_slice())
    }

    /// The URL of an endpoint: `path` under the base URL's `/api/v1/`.
    pub fn api_url(&self, path: &str) -> (r: String)
        ensures
            r@ == self.data.base@ + "/api/v1/"@ + path@,
    {
        let mut out = chars_of(self.data.base.as_str());
        push_str(&mut out, "/api/v1/");
        push_str(&mut out, path);
        string_of(out.as_slice())
    }

    /// A request with this method to this URL, carrying the client's token.
    pub fn request(&self, method: Method, url: String) -> (r: Request)
        ensures
            r.method == method,
            r.url == url,
            r.token@ == self.data.token@,
    {
        Request { method, url, token: self.data.token.clone() }
    }

    fn id_request<R: IdRoute>(&self, method: Method, id: &str) -> (r: Request)
        ensures
            r.method == method,
            r.url@ == self.data.base@ + "/api/v1/"@ + fill(R::route_spec(), id@),
            r.token@ == self.data.token@,
    {
        let mut out = chars_of(self.data.base.as_str());
        push_str(&mut out, "/api/v1/");
        push_filled(&mut out, R::route(), id);
        self.request(method, string_of(out.as_slice()))
    }

    /// The GET request of an endpoint that reads one resource by its id.
    pub fn route_get_id<R: IdGetRoute>(&self, id: &str) -> (r: Request)
        ensures
            r.method == Method::Get,
            r.url@ == self.data.base@ + "/api/v1/"@ + fill(R::route_spec(), id@),
            r.token@ == self.data.token@,
    {
        self.id_request::<R>(Method::Get, id)
    }

    /// The POST request of an endpoint that acts on one resource by its id.
    pub fn route_post_id<R: IdPostRoute>(&self, id: &str) -> (r: Request)
        ensures
            r.method == Method::Post,
            r.url@ == self.data.base@ + "/api/v1/"@ + fill(R::route_spec(), id@),
            r.token@ == self.data.token@,
    {
        self.id_request::<R>(Method::Post, id)
    }

    /// The DELETE request of an endpoint that removes one resource by its id.
    pub fn route_delete_id<R: IdDeleteRoute>(&self, id: &str) -> (r: Request)
        ensures
            r.method == Method::Delete,
            r.url@ == self.data.base@ + "/api/v1/"@ + fill(R::route_spec(), id@),
            r.token@ == self.data.token@,
    {
        self.id_request::<R>(Method::Delete, id)
    }

    /// The URL of the statuses of one account, with the request's options
    /// as its query.
    pub fn statuses_url(&self, id: &str, request: Option<&StatusesRequest>) -> (r: String)
        ensures
            r@ == self.data.base@ + "/api/v1/accounts/"@ + id@ + "/statuses"@ + match request {
                Some(q) => query_of(q.options()),
                None => Seq::empty(),
            },
    {
        let mut out = chars_of(self.data.base.as_str());
        push_str(&mut out, "/api/v1/accounts/");
        push_str(&mut out, id);
        push_str(&mut out, "/statuses");
        match request {
            Some(q) => {
                let qs = q.to_querystring();
                push_str(&mut out, qs.as_str());
            },
            None => {
                assert(out@ + Seq::<char>::empty() =~= out@);
            },
        }
        string_of(out.as_slice())
    }

    /// The URL that asks for the client account's relationships with the
    /// accounts `ids`.
    pub fn relationships_url(&self, ids: &[&str]) -> (r: String)
        ensures
            r@ == self.data.base@ + "/api/v1/accounts/relationships"@ + relationships_query(
                strs_view(ids@),
            ),
    {
        let mut out = chars_of(self.data.base.as_str());
        push_str(&mut out, "/api/v1/accounts/relationships");
        let ghost start = out@;
        let ghost params = Seq::new(ids@.len(), |i: int| "id[]="@ + ids@[i]@);
        if ids.len() == 1 {
            push_str(&mut out, "?id=");
            push_str(&mut out, ids[0]);
            assert(out@ =~= start + relationships_query(strs_view(ids@)));
        } else {
            let mut i: usize = 0;
            assert(out@ =~= start + query_of(params.subrange(0, 0)));
            while i < ids.len()
                invariant
                    i <= ids@.len(),
                    ids@.len() != 1,
                    params == Seq::new(ids@.len(), |i: int| "id[]="@ + ids@[i]@),
                    out@ == start + query_of(params.subrange(0, i as int)),
                decreases ids@.len() - i,
            {
                let mut part = chars_of("id[]=");
                push_str(&mut part, ids[i]);
                proof {
                    lemma_query_push(params.subrange(0, i as int), part@);
                    assert(params.subrange(0, i as int).push(part@) =~= params.subrange(
                        0,
                        i + 1,
                    ));
                }
                if i == 0 {
                    out.push('?');
                } else {
                    out.push('&');
                }
                push_chars(&mut out, part.as_slice());
                assert(out@ =~= start + query_of(params.subrange(0, i + 1)));
                i = i + 1;
            }
            assert(params.subrange(0, ids@.len() as int) =~= params);
            assert(strs_view(ids@).len() == ids@.len());
            assert(Seq::new(ids@.len(), |i: int| "id[]="@ + strs_view(ids@)[i]) =~= params);
        }
        string_of(out.as_slice())
    }

    /// The URL of a search for accounts; at most 40 results unless `limit`
    /// says otherwise.
    pub fn search_accounts_url(&self, query: &str, limit: Option<u64>, following: bool) -> (r:
        String)
        ensures
            r@ == self.data.base@ + "/api/v1/accounts/search?q="@ + query@ + "&limit="@ + decimal(
                match limit {
                    Some(l) => l as nat,
                    None => 40,
                },
            ) + "&following="@ + bool_text(following),
    {
        let mut out = chars_of(self.data.base.as_str());
        push_str(&mut out, "/api/v1/accounts/search?q=");
        push_str(&mut out, query);
        push_str(&mut out, "&limit=");
        let n: u64 = match limit {
            Some(l) => l,
            None => 40,
        };
        push_decimal(&mut out, n);
        push_str(&mut out, "&following=");
        if following {
            push_str(&mut out, "true");
        } else {
            push_str(&mut out, "false");
        }
        string_of(out.as_slice())
    }

    /// The URL of the timeline of a hashtag, local to the instance or not.
    pub fn hashtag_timeline_url(&self, hashtag: &str, local: bool) -> (r: String)
        ensures
            r@ == self.data.base@ + "/api/v1/timelines/tag/"@ + hashtag@ + if local {
                "?local=1"@
            } else {
                Seq::empty()
            },
    {
        let mut out = chars_of(self.data.base.as_str());
        push_str(&mut out, "/api/v1/timelines/tag/");
        push_str(&mut out, hashtag);
        if local {
            push_str(&mut out, "?local=1");
        } else {
            assert(out@ + Seq::<char>::empty() =~= out@);
        }
        string_of(out.as_slice())
    }
}

impl From<Data> for Mastodon {
    /// The client for the registration `data`.
    fn from(data: Data) -> (r: Mastodon)
        ensures
            r.data == data,
    {
        Mastodon { data }
    }
}

impl vstd::std_specs::convert::FromSpecImpl<Data> for Mastodon {
    open spec fn obeys_from_spec() -> bool {
        true
    }

    open spec fn from_spec(data: Data) -> Mastodon {
        Mastodon { data }
    }
}

/// Gathers what a client needs before it is made.
#[derive(Clone, Debug, PartialEq, Eq)]
pub struct MastodonBuilder {
    data: Option<Data>,
}

impl MastodonBuilder {
    /// The data set so far.
    pub closed spec fn data_view(&self) -> Option<Data> {
        self.data
    }

    /// A builder with nothing set.
    pub fn new() -> (r: MastodonBuilder)
        ensures
            r.data_view() is None,
    {
        MastodonBuilder { data: None }
    }

    /// Sets the registration data of the client.
    pub fn data(&mut self, data: Data)
        ensures
            final(self).data_view() == Some(data),
    {
        self.data = Some(data);
    }

    /// The client, or `MissingField` when no data was set.
    pub fn build(self) -> (r: Result<Mastodon, MastodonError>)
        ensures
            match self.data_view() {
                Some(d) => r matches Ok(m) && m.data == d,
                None => r matches Err(MastodonError::MissingField(m)) && m@ == "missing field 'data'"@,
            },
    {
        match self.data {
            Some(data) => Ok(Mastodon { data }),
            None => Err(MastodonError::MissingField(string_of(chars_of("missing field 'data'").as_slice()))),
        }
    }
}

impl Default for MastodonBuilder {
    fn default() -> (r: MastodonBuilder)
        ensures
            r.data_view() is None,
    {
        MastodonBuilder::new()
    }
}

} // verus!
