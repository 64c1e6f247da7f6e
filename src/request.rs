//! The HTTP request that a user lookup sends: endpoint, authorization
//! header value and query parameters.
use vstd::prelude::*;
use crate::params::PGetUsersByIds;
use crate::query::{join, joined};

verus! {

/// Where user records are looked up.
pub const USERS_BY_ID_ENDPOINT: &'static str = "https://api.twitter.com/2/users";

/// Credentials of an API client. The bearer token is set by an
/// authentication step outside this library.
#[derive(Debug)]
pub struct Client {
    pub api_key: String,
    pub api_secret: String,
    pub bearer_token: String,
}

/// A GET request ready to send: the URL, the value of the `Authorization`
/// header and the query parameters, in order, as key and value.
#[derive(Debug)]
pub struct UsersLookupRequest {
    pub url: String,
    pub authorization: String,
    pub query: Vec<(String, String)>,
}

/// The views of a list of strings.
pub open spec fn views(v: Seq<String>) -> Seq<Seq<char>> {
    v.map_values(|s: String| s@)
}

/// The value of an optional list under a comma-joined query key: the list
/// joined with commas, or the empty string where the list is absent.
pub open spec fn optional_value(list: Option<Vec<String>>) -> Seq<char> {
    match list {
        Some(v) => joined(views(v@), seq![',']),
        None => Seq::empty(),
    }
}

/// The query parameters of a lookup: identifiers joined with spaces, then
/// expansions, user fields and tweet fields, each joined with commas.
pub open spec fn query_spec(p: PGetUsersByIds) -> Seq<(Seq<char>, Seq<char>)> {
    seq![
        ("ids"@, joined(views(p.ids@), seq![' '])),
        ("expansions"@, optional_value(p.expansions)),
        ("user.fields"@, optional_value(p.user_fields)),
        ("tweet.fields"@, optional_value(p.tweet_fields)),
    ]
}

/// The views of a list of query parameters.
pub open spec fn pair_views(q: Seq<(String, String)>) -> Seq<(Seq<char>, Seq<char>)> {
    q.map_values(|kv: (String, String)| (kv.0@, kv.1@))
}

/// The `Authorization` header value that carries `token`.
pub open spec fn bearer_spec(token: Seq<char>) -> Seq<char> {
    "Bearer "@ + token
}

/// Joins an optional list with commas; an absent list gives the empty string.
fn optional_join(list: &Option<Vec<String>>) -> (r: String)
    ensures
        r@ == optional_value(*list),
{
    match list {
        Some(v) => {
            let s = join(v, ",");
            proof {
                reveal_strlit(",");
                assert(","@ =~= seq![',']);
                assert(v.deep_view() =~= views(v@));
            }
            s
        },
        None => String::new(),
    }
}

/// The query parameters of a lookup, in the order `ids`, `expansions`,
/// `user.fields`, `tweet.fields`.
pub fn query_params(p: &PGetUsersByIds) -> (r: Vec<(String, String)>)
    ensures
        pair_views(r@) == query_spec(*p),
{
    let ids = join(&p.ids, " ");
    proof {
        reveal_strlit(" ");
        assert(" "@ =~= seq![' ']);
        assert(p.ids.deep_view() =~= views(p.ids@));
    }
    let mut r: Vec<(String, String)> = Vec::new();
    r.push((String::from_str("ids"), ids));
    r.push((String::from_str("expansions"), optional_join(&p.expansions)));
    r.push((String::from_str("user.fields"), optional_join(&p.user_fields)));
    r.push((String::from_str("tweet.fields"), optional_join(&p.tweet_fields)));
    assert(pair_views(r@) =~= query_spec(*p));
    r
}

/// Supplying expansions, tweet fields or user fields leaves the identifiers
/// that a lookup names as they are: two parameter sets with the same
/// identifiers give the same `ids` query parameter, whatever their optional
/// lists hold.
pub proof fn lemma_fields_keep_ids(p: PGetUsersByIds, q: PGetUsersByIds)
    requires
        views(p.ids@) == views(q.ids@),
    ensures
        query_spec(p)[0] == query_spec(q)[0],
        query_spec(p).len() == query_spec(q).len(),
{
}

/// An optional list that is absent or empty gives the empty string as its
/// query value; every lookup still carries all four query parameters.
pub proof fn lemma_empty_lists_give_empty_values(p: PGetUsersByIds)
    ensures
        query_spec(p).len() == 4,
        (p.expansions is None || p.expansions->0@.len() == 0) ==> query_spec(p)[1].1.len() == 0,
        (p.user_fields is None || p.user_fields->0@.len() == 0) ==> query_spec(p)[2].1.len() == 0,
        (p.tweet_fields is None || p.tweet_fields->0@.len() == 0) ==> query_spec(p)[3].1.len()
            == 0,
{
}

/// A lookup of a single identifier sends exactly that identifier as the
/// value of `ids`.
pub proof fn lemma_single_id_query(p: PGetUsersByIds)
    requires
        p.ids@.len() == 1,
    ensures
        query_spec(p)[0] == ("ids"@, p.ids@[0]@),
{
}

impl Client {
    /// The `Authorization` header value for this client's bearer token.
    pub fn authorization(&self) -> (r: String)
        ensures
            r@ == bearer_spec(self.bearer_token@),
    {
        String::from_str("Bearer ").concat(self.bearer_token.as_str())
    }

    /// The request that looks up the users that `params` names.
    pub fn users_by_ids_request(&self, params: &PGetUsersByIds) -> (r: UsersLookupRequest)
        ensures
            r.url@ == USERS_BY_ID_ENDPOINT@,
            r.authorization@ == bearer_spec(self.bearer_token@),
            pair_views(r.query@) == query_spec(*params),
    {
        UsersLookupRequest {
            url: String::from_str(USERS_BY_ID_ENDPOINT),
            authorization: self.authorization(),
            query: query_params(params),
        }
    }
}

} // verus!
