//! Reading a database URL.
//!
//! Decoding a URL is delegated to the `url` crate.  The components it
//! reads out of the text are functions of the text alone; they are named
//! here by the `url_*` spec functions, and [`parse_url`] hands them over
//! as plain values.  Everything the library then decides about the
//! components is verified code.

use vstd::prelude::*;
use crate::text::{opt_str_view, str_eq};

verus! {

/// The components of a URL, as the `url` crate reads them.
#[derive(Debug, Clone, PartialEq)]
pub struct UrlParts {
    /// The username, empty when the URL gives none.
    pub username: String,
    /// The password, when the URL gives one.
    pub password: Option<String>,
    /// The host, when the URL gives one.
    pub host: Option<String>,
    /// The port, when the URL gives one.
    pub port: Option<u16>,
    /// The path, including its leading `/`.
    pub path: String,
    /// The decoded query pairs, in order.
    pub query_pairs: Vec<(String, String)>,
}

/// Whether `url::Url::parse` accepts the text.
pub uninterp spec fn url_ok(s: Seq<char>) -> bool;

/// What `url::Url::username` reads out of the text.
pub uninterp spec fn url_username(s: Seq<char>) -> Seq<char>;

/// What `url::Url::password` reads out of the text.
pub uninterp spec fn url_password(s: Seq<char>) -> Option<Seq<char>>;

/// What `url::Url::host_str` reads out of the text.
pub uninterp spec fn url_host(s: Seq<char>) -> Option<Seq<char>>;

/// What `url::Url::port` reads out of the text.
pub uninterp spec fn url_port(s: Seq<char>) -> Option<u16>;

/// What `url::Url::path` reads out of the text.
pub uninterp spec fn url_path(s: Seq<char>) -> Seq<char>;

/// What `url::Url::query_pairs` reads out of the text.
pub uninterp spec fn url_query_pairs(s: Seq<char>) -> Seq<(Seq<char>, Seq<char>)>;

/// The characters of a sequence of string pairs.
pub open spec fn pairs_view(ps: Seq<(String, String)>) -> Seq<(Seq<char>, Seq<char>)> {
    ps.map_values(|p: (String, String)| (p.0@, p.1@))
}

/// Relies on `url::Url::parse` and on the accessors `username`,
/// `password`, `host_str`, `port`, `path` and `query_pairs` of the
/// parsed value: each reads a component out of the text alone, and each
/// is named by the matching `url_*` spec function above.
#[verifier::external_body]
pub(crate) fn parse_url(s: &str) -> (r: Option<UrlParts>)
    ensures
        r is Some <==> url_ok(s@),
        r matches Some(p) ==> {
            &&& p.username@ == url_username(s@)
            &&& opt_str_view(p.password) == url_password(s@)
            &&& opt_str_view(p.host) == url_host(s@)
            &&& p.port == url_port(s@)
            &&& p.path@ == url_path(s@)
            &&& pairs_view(p.query_pairs@) == url_query_pairs(s@)
        },
{
    match url::Url::parse(s) {
        Ok(u) => Some(UrlParts {
            username: u.username().to_string(),
            password: u.password().map(|p| p.to_string()),
            host: u.host_str().map(|h| h.to_string()),
            port: u.port(),
            path: u.path().to_string(),
            query_pairs: u.query_pairs().map(|(k, v)| (k.to_string(), v.to_string())).collect(),
        }),
        Err(_) => None,
    }
}

/// The value of the first query pair under `key`, if any.
pub open spec fn spec_find_query(ps: Seq<(Seq<char>, Seq<char>)>, key: Seq<char>) -> Option<
    Seq<char>,
>
    decreases ps.len(),
{
    if ps.len() == 0 {
        None
    } else if ps[0].0 == key {
        Some(ps[0].1)
    } else {
        spec_find_query(ps.drop_first(), key)
    }
}

proof fn lemma_find_query_skip(ps: Seq<(Seq<char>, Seq<char>)>, key: Seq<char>, i: int)
    requires
        0 <= i <= ps.len(),
        forall|j: int| 0 <= j < i ==> ps[j].0 != key,
    ensures
        spec_find_query(ps, key) == spec_find_query(ps.skip(i), key),
    decreases i,
{
    if i > 0 {
        lemma_find_query_skip(ps.drop_first(), key, i - 1);
        assert(ps.drop_first().skip(i - 1) =~= ps.skip(i));
    } else {
        assert(ps.skip(0) =~= ps);
    }
}

/// Finds the first query pair under `key` and returns its value.
pub fn find_query_value(pairs: &Vec<(String, String)>, key: &str) -> (r: Option<String>)
    ensures
        opt_str_view(r) == spec_find_query(pairs_view(pairs@), key@),
{
    let n = pairs.len();
    for i in 0..n
        invariant
            n == pairs@.len(),
            forall|j: int| 0 <= j < i ==> pairs_view(pairs@)[j].0 != key@,
    {
        if str_eq(pairs[i].0.as_str(), key) {
            proof {
                lemma_find_query_skip(pairs_view(pairs@), key@, i as int);
                assert(pairs_view(pairs@).skip(i as int)[0] == pairs_view(pairs@)[i as int]);
            }
            return Some(pairs[i].1.clone());
        }
    }
    proof {
        lemma_find_query_skip(pairs_view(pairs@), key@, n as int);
    }
    None
}

} // verus!
