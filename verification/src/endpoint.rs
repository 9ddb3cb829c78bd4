//! Endpoints of the HTTP API: a path template, its parameters and its query.

use vstd::prelude::*;

use serde_json::Value;

use crate::text::{chars_of, push_char, replace, replace_all};

verus! {

#[verifier::external_type_specification]
#[verifier::external_body]
pub struct ExValue(serde_json::Value);

/// `Clone` of `serde_json::Value`, which is derived there: the clone equals
/// the value it was made from.
pub assume_specification[ <serde_json::Value as Clone>::clone ](v: &serde_json::Value) -> (res:
    serde_json::Value)
    ensures
        res == *v,
;

/// An HTTP request method: one of the standard methods, or an extension
/// method by its name.
#[derive(Debug, Clone, PartialEq, Eq)]
pub enum Method {
    Options,
    Get,
    Post,
    Put,
    Delete,
    Head,
    Trace,
    Connect,
    Patch,
    Extension(String),
}

impl Method {
    /// The method's name as it is sent: `GET`, `POST` and so on.
    pub open spec fn name(self) -> Seq<char> {
        match self {
            Method::Options => "OPTIONS"@,
            Method::Get => "GET"@,
            Method::Post => "POST"@,
            Method::Put => "PUT"@,
            Method::Delete => "DELETE"@,
            Method::Head => "HEAD"@,
            Method::Trace => "TRACE"@,
            Method::Connect => "CONNECT"@,
            Method::Patch => "PATCH"@,
            Method::Extension(s) => s@,
        }
    }

    /// The method's name as it is sent.
    pub fn as_str(&self) -> (res: &str)
        ensures
            res@ == self.name(),
    {
        match self {
            Method::Options => "OPTIONS",
            Method::Get => "GET",
            Method::Post => "POST",
            Method::Put => "PUT",
            Method::Delete => "DELETE",
            Method::Head => "HEAD",
            Method::Trace => "TRACE",
            Method::Connect => "CONNECT",
            Method::Patch => "PATCH",
            Method::Extension(s) => s.as_str(),
        }
    }
}

/// A key and a value seen as character sequences.
pub open spec fn pair_view(p: (String, String)) -> (Seq<char>, Seq<char>) {
    (p.0@, p.1@)
}

/// The placeholder that stands for parameter `key` in a path: `{key}`.
pub open spec fn placeholder(key: Seq<char>) -> Seq<char> {
    seq!['{'] + key + seq!['}']
}

/// The path with each parameter's placeholder replaced by its value, the
/// parameters taken in order.
pub open spec fn fill_params(path: Seq<char>, params: Seq<(Seq<char>, Seq<char>)>) -> Seq<char>
    decreases params.len(),
{
    if params.len() == 0 {
        path
    } else {
        replace_all(fill_params(path, params.drop_last()), placeholder(params.last().0), params.last().1)
    }
}

/// `key=value` for one query pair.
pub open spec fn query_pair(p: (Seq<char>, Seq<char>)) -> Seq<char> {
    p.0 + seq!['='] + p.1
}

/// The query pairs as `k1=v1&k2=v2...`.
pub open spec fn query_string(query: Seq<(Seq<char>, Seq<char>)>) -> Seq<char>
    decreases query.len(),
{
    if query.len() == 0 {
        Seq::empty()
    } else if query.len() == 1 {
        query_pair(query[0])
    } else {
        query_string(query.drop_last()) + seq!['&'] + query_pair(query.last())
    }
}

/// The URL of an endpoint: the filled path, then `?` and the query string
/// when there is a query.
pub open spec fn url_of(
    path: Seq<char>,
    params: Seq<(Seq<char>, Seq<char>)>,
    query: Seq<(Seq<char>, Seq<char>)>,
) -> Seq<char> {
    if query.len() == 0 {
        fill_params(path, params)
    } else {
        fill_params(path, params) + seq!['?'] + query_string(query)
    }
}

/// A request target of the API.
#[derive(Debug, Clone)]
pub struct Endpoint {
    pub path: String,
    pub method: Method,
    pub body: Option<Value>,
    pub params: Vec<(String, String)>,
    pub query: Vec<(String, String)>,
}

impl Endpoint {
    /// The path parameters as character sequences.
    pub open spec fn params_view(self) -> Seq<(Seq<char>, Seq<char>)> {
        self.params@.map_values(|p: (String, String)| pair_view(p))
    }

    /// The query pairs as character sequences.
    pub open spec fn query_view(self) -> Seq<(Seq<char>, Seq<char>)> {
        self.query@.map_values(|p: (String, String)| pair_view(p))
    }

    /// The URL this endpoint stands for.
    pub open spec fn url(self) -> Seq<char> {
        url_of(self.path@, self.params_view(), self.query_view())
    }

    /// A `GET` endpoint at `path`, with no body, parameters or query.
    pub fn new(path: &'static str) -> (res: Self)
        ensures
            res.path@ == path@,
            res.method == Method::Get,
            res.body is None,
            res.params@.len() == 0,
            res.query@.len() == 0,
    {
        Endpoint {
            path: path.to_owned(),
            method: Method::Get,
            body: None,
            params: Vec::new(),
            query: Vec::new(),
        }
    }

    /// The endpoint with its method set to `method`.
    pub fn with_method(self, method: Method) -> (res: Self)
        ensures
            res.path == self.path,
            res.method == method,
            res.body == self.body,
            res.params == self.params,
            res.query == self.query,
    {
        let mut e = self;
        e.method = method;
        e
    }

    /// The endpoint with the path parameter `key` set to `value`.
    pub fn with_param(self, key: &str, value: &str) -> (res: Self)
        ensures
            res.path == self.path,
            res.method == self.method,
            res.body == self.body,
            res.params_view() == self.params_view().push((key@, value@)),
            res.query == self.query,
    {
        let mut e = self;
        let ghost before = e.params_view();
        e.params.push((key.to_owned(), value.to_owned()));
        assert(e.params_view() =~= before.push((key@, value@)));
        e
    }

    /// The endpoint with the query pair `key=value` added last.
    pub fn with_query(self, key: &str, value: &str) -> (res: Self)
        ensures
            res.path == self.path,
            res.method == self.method,
            res.body == self.body,
            res.params == self.params,
            res.query_view() == self.query_view().push((key@, value@)),
    {
        let mut e = self;
        let ghost before = e.query_view();
        e.query.push((key.to_owned(), value.to_owned()));
        assert(e.query_view() =~= before.push((key@, value@)));
        e
    }

    /// The endpoint with `body` as its JSON body.
    pub fn with_body(self, body: Value) -> (res: Self)
        ensures
            res.path == self.path,
            res.method == self.method,
            res.body == Some(body),
            res.params == self.params,
            res.query == self.query,
    {
        let mut e = self;
        e.body = Some(body);
        e
    }

    /// The URL: the path with each `{key}` replaced by the value of
    /// parameter `key`, then `?` and `k=v` pairs joined by `&` when there
    /// is a query.
    pub fn build_url(&self) -> (res: String)
        ensures
            res@ == self.url(),
    {
        let ghost pv = self.params_view();
        let ghost qv = self.query_view();
        let mut path = self.path.clone();
        let np = self.params.len();
        let mut i: usize = 0;
        assert(pv.take(0) =~= Seq::<(Seq<char>, Seq<char>)>::empty());
        while i < np
            invariant
                np == self.params@.len(),
                pv == self.params_view(),
                i <= np,
                path@ == fill_params(self.path@, pv.take(i as int)),
            decreases np - i,
        {
            let key = &self.params[i].0;
            let value = &self.params[i].1;
            let mut pat = String::new();
            push_char(&mut pat, '{');
            pat.append(key.as_str());
            push_char(&mut pat, '}');
            assert(pat@ =~= placeholder(key@));
            path = replace(path.as_str(), pat.as_str(), value.as_str());
            assert(pv.take(i + 1).drop_last() =~= pv.take(i as int));
            assert(pv.take(i + 1).last() == pv[i as int]);
            i += 1;
        }
        assert(pv.take(np as int) =~= pv);
        let nq = self.query.len();
        if nq > 0 {
            let ghost base = path@;
            push_char(&mut path, '?');
            let mut j: usize = 0;
            assert(qv.take(0) =~= Seq::<(Seq<char>, Seq<char>)>::empty());
            assert(path@ =~= base + seq!['?'] + query_string(qv.take(0)));
            while j < nq
                invariant
                    nq == self.query@.len(),
                    qv == self.query_view(),
                    j <= nq,
                    path@ == base + seq!['?'] + query_string(qv.take(j as int)),
                decreases nq - j,
            {
                if j > 0 {
                    push_char(&mut path, '&');
                }
                path.append(self.query[j].0.as_str());
                push_char(&mut path, '=');
                path.append(self.query[j].1.as_str());
                let ghost t = qv.take(j + 1);
                assert(t.last() == qv[j as int]);
                assert(t.drop_last() =~= qv.take(j as int));
                assert(path@ =~= base + seq!['?'] + query_string(t));
                j += 1;
            }
            assert(qv.take(nq as int) =~= qv);
        }
        path
    }
}

/// Adding a query pair appends it to the URL: after `?` when it is the
/// first pair, after `&` otherwise.
pub proof fn lemma_url_with_query(
    path: Seq<char>,
    params: Seq<(Seq<char>, Seq<char>)>,
    query: Seq<(Seq<char>, Seq<char>)>,
    pair: (Seq<char>, Seq<char>),
)
    ensures
        url_of(path, params, query.push(pair)) == url_of(path, params, query) + (if query.len()
            == 0 {
            seq!['?']
        } else {
            seq!['&']
        }) + query_pair(pair),
{
    let q = query.push(pair);
    assert(q.drop_last() =~= query);
    assert(q.last() == pair);
    if query.len() == 0 {
        assert(q[0] == pair);
    }
}

/// Adding a path parameter replaces its placeholder in the URL built so far
/// with its value.
pub proof fn lemma_url_with_param(
    path: Seq<char>,
    params: Seq<(Seq<char>, Seq<char>)>,
    query: Seq<(Seq<char>, Seq<char>)>,
    param: (Seq<char>, Seq<char>),
)
    ensures
        fill_params(path, params.push(param)) == replace_all(
            fill_params(path, params),
            placeholder(param.0),
            param.1,
        ),
        url_of(path, params.push(param), query) == (if query.len() == 0 {
            fill_params(path, params.push(param))
        } else {
            fill_params(path, params.push(param)) + seq!['?'] + query_string(query)
        }),
{
    assert(params.push(param).drop_last() =~= params);
}

/// A path without any `{` is not changed by parameters.
pub proof fn lemma_plain_path_unchanged(path: Seq<char>, params: Seq<(Seq<char>, Seq<char>)>)
    requires
        !path.contains('{'),
    ensures
        fill_params(path, params) == path,
    decreases params.len(),
{
    if params.len() > 0 {
        lemma_plain_path_unchanged(path, params.drop_last());
        let pat = placeholder(params.last().0);
        assert(pat[0] == '{');
        crate::text::lemma_replace_all_absent(path, pat, params.last().1);
    }
}

/// Each standard method is sent under its own upper-case name, and an
/// extension method under the name it was given.
pub proof fn lemma_method_names(name: String)
    ensures
        Method::Get.name() == "GET"@,
        Method::Post.name() == "POST"@,
        Method::Put.name() == "PUT"@,
        Method::Delete.name() == "DELETE"@,
        Method::Patch.name() == "PATCH"@,
        Method::Head.name() == "HEAD"@,
        Method::Options.name() == "OPTIONS"@,
        Method::Trace.name() == "TRACE"@,
        Method::Connect.name() == "CONNECT"@,
        Method::Extension(name).name() == name@,
{
}

/// What a URL looks like: a path parameter `key` fills each `{key}` in the
/// path, and query pairs follow a `?` as `key=value`, joined by `&`.
pub proof fn lemma_url_shape(
    path: Seq<char>,
    key: Seq<char>,
    value: Seq<char>,
    k2: Seq<char>,
    v2: Seq<char>,
)
    ensures
        fill_params(path, seq![(key, value)]) == replace_all(
            path,
            seq!['{'] + key + seq!['}'],
            value,
        ),
        url_of(path, Seq::empty(), seq![(key, value)]) == path + seq!['?'] + key + seq!['=']
            + value,
        url_of(path, Seq::empty(), seq![(key, value), (k2, v2)]) == path + seq!['?'] + key + seq![
            '=',
        ] + value + seq!['&'] + k2 + seq!['='] + v2,
        url_of(path, Seq::empty(), Seq::empty()) == path,
{
    assert(seq![(key, value)].drop_last() =~= Seq::<(Seq<char>, Seq<char>)>::empty());
    assert(fill_params(path, Seq::empty()) == path);
    assert(fill_params(path, seq![(key, value)]) == replace_all(
        fill_params(path, Seq::empty()),
        placeholder(key),
        value,
    ));
    assert(seq![(key, value), (k2, v2)].drop_last() =~= seq![(key, value)]);
    assert(path + seq!['?'] + (key + seq!['='] + value) =~= path + seq!['?'] + key + seq!['=']
        + value);
    assert(path + seq!['?'] + (key + seq!['='] + value + seq!['&'] + (k2 + seq!['='] + v2))
        =~= path + seq!['?'] + key + seq!['='] + value + seq!['&'] + k2 + seq!['='] + v2);
}

} // verus!
