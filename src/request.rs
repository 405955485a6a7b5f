use vstd::prelude::*;

use crate::text::{chars_of, decimal, opt_view, push_chars, push_decimal, push_str, string_of};

verus! {

/// Options of the request for the statuses of one account.
#[derive(Clone, Debug, PartialEq, Eq)]
pub struct StatusesRequest {
    only_media: bool,
    exclude_replies: bool,
    pinned: bool,
    max_id: Option<String>,
    since_id: Option<String>,
    limit: Option<usize>,
}

/// Parts joined with `&` between each two of them.
pub open spec fn join_amp(parts: Seq<Seq<char>>) -> Seq<char>
    decreases parts.len(),
{
    if parts.len() == 0 {
        Seq::empty()
    } else if parts.len() == 1 {
        parts[0]
    } else {
        join_amp(parts.drop_last()) + seq!['&'] + parts.last()
    }
}

/// A query string made of the given options: empty without any, else `?`
/// followed by the options joined with `&`.
pub open spec fn query_of(parts: Seq<Seq<char>>) -> Seq<char> {
    if parts.len() == 0 {
        Seq::empty()
    } else {
        seq!['?'] + join_amp(parts)
    }
}

/// The option `key=value` when the value is present, else nothing.
pub open spec fn opt_param(key: Seq<char>, value: Option<Seq<char>>) -> Seq<Seq<char>> {
    match value {
        Some(v) => seq![key + v],
        None => Seq::empty(),
    }
}

/// The option `flag` when it is set, else nothing.
pub open spec fn flag_param(flag: Seq<char>, set: bool) -> Seq<Seq<char>> {
    if set {
        seq![flag]
    } else {
        Seq::empty()
    }
}

pub(crate) proof fn lemma_query_push(parts: Seq<Seq<char>>, o: Seq<char>)
    ensures
        query_of(parts.push(o)) == query_of(parts) + (if parts.len() == 0 {
            seq!['?']
        } else {
            seq!['&']
        }) + o,
{
    let p = parts.push(o);
    assert(p.drop_last() =~= parts);
    if parts.len() == 0 {
        assert(query_of(p) =~= seq!['?'] + o);
    } else {
        assert(query_of(p) =~= query_of(parts) + seq!['&'] + o);
    }
}

/// Appends one option to a query string under construction.
fn push_option(out: &mut Vec<char>, opt: &[char], Ghost(parts): Ghost<Seq<Seq<char>>>)
    requires
        old(out)@ == query_of(parts),
    ensures
        final(out)@ == query_of(parts.push(opt@)),
{
    proof {
        lemma_query_push(parts, opt@);
    }
    if out.len() == 0 {
        out.push('?');
    } else {
        out.push('&');
    }
    push_chars(out, opt);
}

impl StatusesRequest {
    /// The options that are set, in the order in which they are sent.
    pub open spec fn options(&self) -> Seq<Seq<char>> {
        flag_param("only_media=1"@, self.is_only_media()) + flag_param(
            "exclude_replies=1"@,
            self.is_exclude_replies(),
        ) + flag_param("pinned=1"@, self.is_pinned()) + opt_param("max_id="@, self.max_id_view())
            + opt_param("since_id="@, self.since_id_view()) + opt_param(
            "limit="@,
            match self.limit_view() {
                Some(l) => Some(decimal(l as nat)),
                None => None,
            },
        )
    }

    /// Each option whose flag here is false has the same value in both requests.
    pub open spec fn same_but(
        &self,
        other: &StatusesRequest,
        media: bool,
        replies: bool,
        pin: bool,
        max: bool,
        since: bool,
        lim: bool,
    ) -> bool {
        &&& (media || self.is_only_media() == other.is_only_media())
        &&& (replies || self.is_exclude_replies() == other.is_exclude_replies())
        &&& (pin || self.is_pinned() == other.is_pinned())
        &&& (max || self.max_id_view() == other.max_id_view())
        &&& (since || self.since_id_view() == other.since_id_view())
        &&& (lim || self.limit_view() == other.limit_view())
    }

    /// Whether only statuses with media are asked for.
    pub closed spec fn is_only_media(&self) -> bool {
        self.only_media
    }

    /// Whether replies are left out.
    pub closed spec fn is_exclude_replies(&self) -> bool {
        self.exclude_replies
    }

    /// Whether only pinned statuses are asked for.
    pub closed spec fn is_pinned(&self) -> bool {
        self.pinned
    }

    /// The id that the statuses must be older than, if any.
    pub closed spec fn max_id_view(&self) -> Option<Seq<char>> {
        opt_view(self.max_id)
    }

    /// The id that the statuses must be newer than, if any.
    pub closed spec fn since_id_view(&self) -> Option<Seq<char>> {
        opt_view(self.since_id)
    }

    /// The most statuses to send, if bounded.
    pub closed spec fn limit_view(&self) -> Option<usize> {
        self.limit
    }

    /// A request with no option set.
    pub fn new() -> (r: StatusesRequest)
        ensures
            !r.is_only_media(),
            !r.is_exclude_replies(),
            !r.is_pinned(),
            r.max_id_view() is None,
            r.since_id_view() is None,
            r.limit_view() is None,
            r.options() == Seq::<Seq<char>>::empty(),
    {
        StatusesRequest {
            only_media: false,
            exclude_replies: false,
            pinned: false,
            max_id: None,
            since_id: None,
            limit: None,
        }
    }

    /// Asks for statuses with media attached only.
    pub fn only_media(self) -> (r: StatusesRequest)
        ensures
            r.is_only_media(),
            r.same_but(&self, true, false, false, false, false, false),
    {
        StatusesRequest { only_media: true, ..self }
    }

    /// Leaves out replies.
    pub fn exclude_replies(self) -> (r: StatusesRequest)
        ensures
            r.is_exclude_replies(),
            r.same_but(&self, false, true, false, false, false, false),
    {
        StatusesRequest { exclude_replies: true, ..self }
    }

    /// Asks for pinned statuses only.
    pub fn pinned(self) -> (r: StatusesRequest)
        ensures
            r.is_pinned(),
            r.same_but(&self, false, false, true, false, false, false),
    {
        StatusesRequest { pinned: true, ..self }
    }

    /// Asks for statuses older than the given id.
    pub fn max_id(self, max_id: &str) -> (r: StatusesRequest)
        ensures
            r.max_id_view() == Some(max_id@),
            r.same_but(&self, false, false, false, true, false, false),
    {
        let id = max_id.to_owned();
        StatusesRequest { max_id: Some(id), ..self }
    }

    /// Asks for statuses newer than the given id.
    pub fn since_id(self, since_id: &str) -> (r: StatusesRequest)
        ensures
            r.since_id_view() == Some(since_id@),
            r.same_but(&self, false, false, false, false, true, false),
    {
        let id = since_id.to_owned();
        StatusesRequest { since_id: Some(id), ..self }
    }

    /// Asks for at most `limit` statuses.
    pub fn limit(self, limit: usize) -> (r: StatusesRequest)
        ensures
            r.limit_view() == Some(limit),
            r.same_but(&self, false, false, false, false, false, true),
    {
        StatusesRequest { limit: Some(limit), ..self }
    }

    /// The query string that carries the options that are set: empty when
    /// none is, else `?` and the options joined with `&`.
    pub fn to_querystring(&self) -> (r: String)
        ensures
            r@ == query_of(self.options()),
    {
        let mut out: Vec<char> = Vec::new();
        let ghost mut parts: Seq<Seq<char>> = Seq::empty();
        if self.only_media {
            let o = chars_of("only_media=1");
            push_option(&mut out, o.as_slice(), Ghost(parts));
            proof { parts = parts.push(o@); }
        }
        if self.exclude_replies {
            let o = chars_of("exclude_replies=1");
            push_option(&mut out, o.as_slice(), Ghost(parts));
            proof { parts = parts.push(o@); }
        }
        if self.pinned {
            let o = chars_of("pinned=1");
            push_option(&mut out, o.as_slice(), Ghost(parts));
            proof { parts = parts.push(o@); }
        }
        if let Some(id) = &self.max_id {
            let mut o = chars_of("max_id=");
            push_str(&mut o, id.as_str());
            push_option(&mut out, o.as_slice(), Ghost(parts));
            proof { parts = parts.push(o@); }
        }
        if let Some(id) = &self.since_id {
            let mut o = chars_of("since_id=");
            push_str(&mut o, id.as_str());
            push_option(&mut out, o.as_slice(), Ghost(parts));
            proof { parts = parts.push(o@); }
        }
        if let Some(l) = self.limit {
            let mut o = chars_of("limit=");
            push_decimal(&mut o, l as u64);
            push_option(&mut out, o.as_slice(), Ghost(parts));
            proof { parts = parts.push(o@); }
        }
        assert(parts =~= self.options());
        string_of(out.as_slice())
    }
}

impl Default for StatusesRequest {
    fn default() -> (r: StatusesRequest)
        ensures
            r.options() == Seq::<Seq<char>>::empty(),
            !r.is_only_media(),
            !r.is_exclude_replies(),
            !r.is_pinned(),
            r.max_id_view() is None,
            r.since_id_view() is None,
            r.limit_view() is None,
    {
        StatusesRequest::new()
    }
}

} // verus!
