//! The local proxy server: requests to "/url?url=..." are forwarded to the
//! address given in the query, and the answer is passed back.
use vstd::prelude::*;
use crate::text::{chars_of, matches_at, occurs_at, str_eq, string_of, subrange_string};

verus! {

broadcast use vstd::string::group_string_axioms;

/// What `urlencoding::decode` gives for `s`: the percent-decoded text, or
/// none when the decoded bytes are not UTF-8.
pub uninterp spec fn url_decoded(s: Seq<char>) -> Option<Seq<char>>;

/// Whether `s` holds a "%", which starts an escape.
pub open spec fn has_percent(s: Seq<char>) -> bool {
    s.contains('%')
}

/// `urlencoding::decode`: percent-decodes `s` ("+" is kept as it is). The
/// result is named by `url_decoded`; of it the contract states only that a
/// text without "%" comes back unchanged.
#[verifier::external_body]
fn decode(s: &str) -> (r: Option<String>)
    ensures
        r is None ==> url_decoded(s@) is None && has_percent(s@),
        r matches Some(d) ==> url_decoded(s@) == Some(d@) && (has_percent(s@) || d@ == s@),
{
    match urlencoding::decode(s) {
        Ok(d) => Some(d.into_owned()),
        Err(_) => None,
    }
}

/// The start of the last occurrence of `p` in `s` that starts before
/// `end`, or -1.
pub open spec fn last_occurrence(s: Seq<char>, p: Seq<char>, end: int) -> int
    decreases end,
{
    if end <= 0 {
        -1
    } else if occurs_at(s, p, end - 1) {
        end - 1
    } else {
        last_occurrence(s, p, end - 1)
    }
}

/// The last part of `s` when it is split at "url=": what follows the last
/// "url=", or all of `s` when there is none. ("url=" cannot overlap itself,
/// so the last piece of the split starts after its last occurrence.)
pub open spec fn after_last_url_param(s: Seq<char>) -> Seq<char> {
    let k = last_occurrence(s, "url="@, s.len() as int);
    if k < 0 {
        s
    } else {
        s.skip(k + 4)
    }
}

proof fn lemma_last_occurrence(s: Seq<char>, p: Seq<char>, end: int)
    ensures
        ({
            let k = last_occurrence(s, p, end);
            &&& -1 <= k && (k < end || k == -1)
            &&& k >= 0 ==> occurs_at(s, p, k)
            &&& forall|j: int| k < j < end ==> !occurs_at(s, p, j)
        }),
    decreases end,
{
    if end > 0 && !occurs_at(s, p, end - 1) {
        lemma_last_occurrence(s, p, end - 1);
    }
}

/// The address taken from a query holds no further "url=": taking the
/// address again gives the same address, so a forwarded address is never
/// cut down a second time.
pub proof fn lemma_proxy_target_stable(s: Seq<char>)
    ensures
        after_last_url_param(after_last_url_param(s)) == after_last_url_param(s),
{
    reveal_strlit("url=");
    let p = "url="@;
    let k = last_occurrence(s, p, s.len() as int);
    lemma_last_occurrence(s, p, s.len() as int);
    let r = after_last_url_param(s);
    if k >= 0 {
        assert(r == s.skip(k + 4));
        assert forall|j: int| 0 <= j < r.len() implies !occurs_at(r, p, j) by {
            if occurs_at(r, p, j) {
                assert(r.subrange(j, j + 4) =~= s.subrange(k + 4 + j, k + 4 + j + 4));
                assert(occurs_at(s, p, k + 4 + j));
            }
        }
    }
    let k2 = last_occurrence(r, p, r.len() as int);
    lemma_last_occurrence(r, p, r.len() as int);
    if k2 >= 0 {
        assert(occurs_at(r, p, k2));
        if k < 0 {
            assert(r == s);
        }
    }
}

/// The address that the decoded query `decoded` asks for: what follows its
/// last "url=" (all of it when there is none).
pub fn proxy_target(decoded: &str) -> (url: String)
    ensures
        url@ == after_last_url_param(decoded@),
{
    proof {
        reveal_strlit("url=");
    }
    let s = chars_of(decoded);
    let p = chars_of("url=");
    assert(p@.len() == 4);
    let mut end = s.len();
    while end > 0
        invariant
            end <= s.len(),
            s@ == decoded@,
            p@ == "url="@,
            p@.len() == 4,
            last_occurrence(s@, p@, s@.len() as int) == last_occurrence(s@, p@, end as int),
        decreases end,
    {
        if matches_at(&s, &p, end - 1) {
            let start = end - 1 + 4;
            assert(start <= s.len());
            let r = subrange_string(&s, start, s.len());
            assert(s@.subrange(start as int, s@.len() as int) =~= s@.skip(start as int));
            return r;
        }
        end = end - 1;
    }
    string_of(&s)
}

/// The methods of requests to the proxy server.
#[derive(PartialEq, Eq, Structural, Clone, Copy, Debug)]
pub enum ProxyMethod {
    Get,
    Post,
    Put,
    Delete,
}

/// The method named `m`, if the proxy server accepts it.
pub open spec fn proxy_method(m: Seq<char>) -> Option<ProxyMethod> {
    if m == "GET"@ {
        Some(ProxyMethod::Get)
    } else if m == "POST"@ {
        Some(ProxyMethod::Post)
    } else if m == "PUT"@ {
        Some(ProxyMethod::Put)
    } else if m == "DELETE"@ {
        Some(ProxyMethod::Delete)
    } else {
        None
    }
}

fn proxy_method_exec(m: &str) -> (r: Option<ProxyMethod>)
    ensures
        r == proxy_method(m@),
{
    if str_eq(m, "GET") {
        Some(ProxyMethod::Get)
    } else if str_eq(m, "POST") {
        Some(ProxyMethod::Post)
    } else if str_eq(m, "PUT") {
        Some(ProxyMethod::Put)
    } else if str_eq(m, "DELETE") {
        Some(ProxyMethod::Delete)
    } else {
        None
    }
}

/// What the proxy does with a request.
#[derive(Clone, Debug, PartialEq, Eq)]
pub enum ProxyDecision {
    /// The query does not decode to UTF-8 text; the request is not served.
    Undecodable,
    /// Answered with status 400: no address, or a method that is not
    /// forwarded.
    BadRequest,
    /// Answered with the result of a request with the method to the
    /// address.
    Forward { method: ProxyMethod, url: String },
}

/// What the proxy does with a request whose query is `query` (empty when
/// there is none) and whose method is `method`: the query is decoded, the
/// address is what follows its last "url="; an empty address, or another
/// method than the GET, POST, PUT and DELETE that the server accepts, gets
/// status 400. Every accepted request is answered with the result of a GET
/// request to the address.
pub fn handle_request(query: &str, method: &str) -> (d: ProxyDecision)
    ensures
        url_decoded(query@) is None <==> d is Undecodable,
        url_decoded(query@) matches Some(q) ==> (if after_last_url_param(q).len() == 0
            || proxy_method(method@) is None {
            d is BadRequest
        } else {
            d matches ProxyDecision::Forward { method: m, url } && m == ProxyMethod::Get && url@
                == after_last_url_param(q)
        }),
{
    let decoded = match decode(query) {
        Some(d) => d,
        None => {
            return ProxyDecision::Undecodable;
        },
    };
    let url = proxy_target(decoded.as_str());
    if url.as_str().is_empty() {
        return ProxyDecision::BadRequest;
    }
    match proxy_method_exec(method) {
        Some(_) => ProxyDecision::Forward { method: ProxyMethod::Get, url },
        None => ProxyDecision::BadRequest,
    }
}

/// Whether a request header is passed on: all but "host" and
/// "accept-encoding" (header names are lowercase once parsed).
pub fn forwards_header(name: &str) -> (b: bool)
    ensures
        b == (name@ != "host"@ && name@ != "accept-encoding"@),
{
    !str_eq(name, "host") && !str_eq(name, "accept-encoding")
}

/// The content type of the answer: the forwarded answer's, else
/// "text/plain".
pub fn response_content_type(content_type: Option<String>) -> (t: String)
    ensures
        t@ == (match content_type {
            Some(c) => c@,
            None => "text/plain"@,
        }),
{
    match content_type {
        Some(c) => c,
        None => String::from_str("text/plain"),
    }
}

} // verus!
