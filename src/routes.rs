use vstd::prelude::*;

use crate::text::{chars_of, push_chars, push_str};

verus! {

/// The HTTP method of a request.
#[derive(Clone, Copy, Debug, PartialEq, Eq, Structural)]
pub enum Method {
    /// Reads a resource.
    Get,
    /// Creates or acts.
    Post,
    /// Replaces a resource.
    Put,
    /// Changes part of a resource.
    Patch,
    /// Removes a resource.
    Delete,
}

/// `template` with its first `{}` replaced by `id`; unchanged when it has
/// no `{}`.
pub open spec fn fill(template: Seq<char>, id: Seq<char>) -> Seq<char>
    decreases template.len(),
{
    if template.len() < 2 {
        template
    } else if template[0] == '{' && template[1] == '}' {
        id + template.subrange(2, template.len() as int)
    } else {
        seq![template[0]] + fill(template.drop_first(), id)
    }
}

/// An endpoint of the API that acts on one resource, named by its id.
pub trait IdRoute {
    /// The path after `/api/v1/`, with `{}` where the id goes.
    spec fn route_spec() -> Seq<char>;

    /// The path after `/api/v1/`, with `{}` where the id goes.
    fn route() -> (r: &'static str)
        ensures
            r@ == Self::route_spec(),
    ;
}

/// An endpoint that is read with GET.
pub trait IdGetRoute: IdRoute {

}

/// An endpoint that is called with POST.
pub trait IdPostRoute: IdRoute {

}

/// An endpoint that is called with DELETE.
pub trait IdDeleteRoute: IdRoute {

}

/// Whether a `{}` starts at index `k` of `t`.
pub open spec fn opens_at(t: Seq<char>, k: int) -> bool {
    0 <= k && k + 1 < t.len() && t[k] == '{' && t[k + 1] == '}'
}

proof fn lemma_fill_at(t: Seq<char>, id: Seq<char>, i: int)
    requires
        0 <= i <= t.len(),
        forall|k: int| 0 <= k < i ==> !#[trigger] opens_at(t, k),
        i + 1 < t.len() ==> t[i] == '{' && t[i + 1] == '}',
        i + 1 >= t.len() ==> i == t.len(),
    ensures
        i < t.len() ==> fill(t, id) == t.subrange(0, i) + id + t.subrange(i + 2, t.len() as int),
        i == t.len() ==> fill(t, id) == t,
    decreases i,
{
    if t.len() < 2 {
    } else if i == 0 {
        assert(t.subrange(0, 0) + id =~= id);
    } else {
        let u = t.drop_first();
        assert(!opens_at(t, 0));
        assert forall|k: int| 0 <= k < i - 1 implies !#[trigger] opens_at(u, k) by {
            assert(!opens_at(t, k + 1));
        }
        lemma_fill_at(u, id, i - 1);
        if i < t.len() {
            assert(seq![t[0]] + (u.subrange(0, i - 1) + id + u.subrange(i + 1, u.len() as int))
                =~= t.subrange(0, i) + id + t.subrange(i + 2, t.len() as int));
        } else {
            assert(seq![t[0]] + u =~= t);
        }
    }
}

/// Appends `template` to `out`, with its first `{}` replaced by `id`.
pub fn push_filled(out: &mut Vec<char>, template: &str, id: &str)
    ensures
        final(out)@ == old(out)@ + fill(template@, id@),
{
    let t = chars_of(template);
    let n = t.len();
    let mut i: usize = 0;
    while n - i > 1 && !(t[i] == '{' && t[i + 1] == '}')
        invariant
            i <= n,
            n == t@.len(),
            forall|k: int| 0 <= k < i ==> !#[trigger] opens_at(t@, k),
        decreases n - i,
    {
        i = i + 1;
    }
    if n - i > 1 {
        proof {
            lemma_fill_at(t@, id@, i as int);
        }
        push_chars(out, &t.as_slice()[0..i]);
        push_str(out, id);
        push_chars(out, &t.as_slice()[i + 2..n]);
        assert(final(out)@ =~= old(out)@ + fill(template@, id@));
    } else {
        proof {
            lemma_fill_at(t@, id@, n as int);
        }
        push_chars(out, t.as_slice());
    }
}

/// The endpoint `accounts/{}/block`.
#[derive(Clone, Copy, Debug)]
pub struct Block;

impl IdRoute for Block {
    open spec fn route_spec() -> Seq<char> {
        "accounts/{}/block"@
    }

    fn route() -> (r: &'static str) {
        "accounts/{}/block"
    }
}

impl IdPostRoute for Block {

}

/// The endpoint `filters/{}`.
#[derive(Clone, Copy, Debug)]
pub struct DeleteFilter;

impl IdRoute for DeleteFilter {
    open spec fn route_spec() -> Seq<char> {
        "filters/{}"@
    }

    fn route() -> (r: &'static str) {
        "filters/{}"
    }
}

impl IdDeleteRoute for DeleteFilter {

}

/// The endpoint `suggestions/{}`.
#[derive(Clone, Copy, Debug)]
pub struct DeleteFromSuggestions;

impl IdRoute for DeleteFromSuggestions {
    open spec fn route_spec() -> Seq<char> {
        "suggestions/{}"@
    }

    fn route() -> (r: &'static str) {
        "suggestions/{}"
    }
}

impl IdDeleteRoute for DeleteFromSuggestions {

}

/// The endpoint `statuses/{}`.
#[derive(Clone, Copy, Debug)]
pub struct DeleteStatus;

impl IdRoute for DeleteStatus {
    open spec fn route_spec() -> Seq<char> {
        "statuses/{}"@
    }

    fn route() -> (r: &'static str) {
        "statuses/{}"
    }
}

impl IdDeleteRoute for DeleteStatus {

}

/// The endpoint `accounts/{}/pin`.
#[derive(Clone, Copy, Debug)]
pub struct EndorseUser;

impl IdRoute for EndorseUser {
    open spec fn route_spec() -> Seq<char> {
        "accounts/{}/pin"@
    }

    fn route() -> (r: &'static str) {
        "accounts/{}/pin"
    }
}

impl IdPostRoute for EndorseUser {

}

/// The endpoint `statuses/{}/favourite`.
#[derive(Clone, Copy, Debug)]
pub struct Favourite;

impl IdRoute for Favourite {
    open spec fn route_spec() -> Seq<char> {
        "statuses/{}/favourite"@
    }

    fn route() -> (r: &'static str) {
        "statuses/{}/favourite"
    }
}

impl IdPostRoute for Favourite {

}

/// The endpoint `accounts/{}/follow`.
#[derive(Clone, Copy, Debug)]
pub struct Follow;

impl IdRoute for Follow {
    open spec fn route_spec() -> Seq<char> {
        "accounts/{}/follow"@
    }

    fn route() -> (r: &'static str) {
        "accounts/{}/follow"
    }
}

impl IdPostRoute for Follow {

}

/// The endpoint `accounts/{}`.
#[derive(Clone, Copy, Debug)]
pub struct GetAccount;

impl IdRoute for GetAccount {
    open spec fn route_spec() -> Seq<char> {
        "accounts/{}"@
    }

    fn route() -> (r: &'static str) {
        "accounts/{}"
    }
}

impl IdGetRoute for GetAccount {

}

/// The endpoint `statuses/{}/card`.
#[derive(Clone, Copy, Debug)]
pub struct GetCard;

impl IdRoute for GetCard {
    open spec fn route_spec() -> Seq<char> {
        "statuses/{}/card"@
    }

    fn route() -> (r: &'static str) {
        "statuses/{}/card"
    }
}

impl IdGetRoute for GetCard {

}

/// The endpoint `statuses/{}/context`.
#[derive(Clone, Copy, Debug)]
pub struct GetContext;

impl IdRoute for GetContext {
    open spec fn route_spec() -> Seq<char> {
        "statuses/{}/context"@
    }

    fn route() -> (r: &'static str) {
        "statuses/{}/context"
    }
}

impl IdGetRoute for GetContext {

}

/// The endpoint `filters/{}`.
#[derive(Clone, Copy, Debug)]
pub struct GetFilter;

impl IdRoute for GetFilter {
    open spec fn route_spec() -> Seq<char> {
        "filters/{}"@
    }

    fn route() -> (r: &'static str) {
        "filters/{}"
    }
}

impl IdGetRoute for GetFilter {

}

/// The endpoint `notifications/{}`.
#[derive(Clone, Copy, Debug)]
pub struct GetNotification;

impl IdRoute for GetNotification {
    open spec fn route_spec() -> Seq<char> {
        "notifications/{}"@
    }

    fn route() -> (r: &'static str) {
        "notifications/{}"
    }
}

impl IdGetRoute for GetNotification {

}

/// The endpoint `statuses/{}`.
#[derive(Clone, Copy, Debug)]
pub struct GetStatus;

impl IdRoute for GetStatus {
    open spec fn route_spec() -> Seq<char> {
        "statuses/{}"@
    }

    fn route() -> (r: &'static str) {
        "statuses/{}"
    }
}

impl IdGetRoute for GetStatus {

}

/// The endpoint `accounts/{}/mute`.
#[derive(Clone, Copy, Debug)]
pub struct Mute;

impl IdRoute for Mute {
    open spec fn route_spec() -> Seq<char> {
        "accounts/{}/mute"@
    }

    fn route() -> (r: &'static str) {
        "accounts/{}/mute"
    }
}

impl IdGetRoute for Mute {

}

/// The endpoint `statuses/{}/reblog`.
#[derive(Clone, Copy, Debug)]
pub struct Reblog;

impl IdRoute for Reblog {
    open spec fn route_spec() -> Seq<char> {
        "statuses/{}/reblog"@
    }

    fn route() -> (r: &'static str) {
        "statuses/{}/reblog"
    }
}

impl IdPostRoute for Reblog {

}

/// The endpoint `accounts/{}/unblock`.
#[derive(Clone, Copy, Debug)]
pub struct Unblock;

impl IdRoute for Unblock {
    open spec fn route_spec() -> Seq<char> {
        "accounts/{}/unblock"@
    }

    fn route() -> (r: &'static str) {
        "accounts/{}/unblock"
    }
}

impl IdPostRoute for Unblock {

}

/// The endpoint `accounts/{}/unpin`.
#[derive(Clone, Copy, Debug)]
pub struct UnendorseUser;

impl IdRoute for UnendorseUser {
    open spec fn route_spec() -> Seq<char> {
        "accounts/{}/unpin"@
    }

    fn route() -> (r: &'static str) {
        "accounts/{}/unpin"
    }
}

impl IdPostRoute for UnendorseUser {

}

/// The endpoint `statuses/{}/unfavourite`.
#[derive(Clone, Copy, Debug)]
pub struct Unfavourite;

impl IdRoute for Unfavourite {
    open spec fn route_spec() -> Seq<char> {
        "statuses/{}/unfavourite"@
    }

    fn route() -> (r: &'static str) {
        "statuses/{}/unfavourite"
    }
}

impl IdPostRoute for Unfavourite {

}

/// The endpoint `accounts/{}/unfollow`.
#[derive(Clone, Copy, Debug)]
pub struct Unfollow;

impl IdRoute for Unfollow {
    open spec fn route_spec() -> Seq<char> {
        "accounts/{}/unfollow"@
    }

    fn route() -> (r: &'static str) {
        "accounts/{}/unfollow"
    }
}

impl IdPostRoute for Unfollow {

}

/// The endpoint `accounts/{}/unmute`.
#[derive(Clone, Copy, Debug)]
pub struct Unmute;

impl IdRoute for Unmute {
    open spec fn route_spec() -> Seq<char> {
        "accounts/{}/unmute"@
    }

    fn route() -> (r: &'static str) {
        "accounts/{}/unmute"
    }
}

impl IdGetRoute for Unmute {

}

/// The endpoint `statuses/{}/unreblog`.
#[derive(Clone, Copy, Debug)]
pub struct Unreblog;

impl IdRoute for Unreblog {
    open spec fn route_spec() -> Seq<char> {
        "statuses/{}/unreblog"@
    }

    fn route() -> (r: &'static str) {
        "statuses/{}/unreblog"
    }
}

impl IdPostRoute for Unreblog {

}

} // verus!
