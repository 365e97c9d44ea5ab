//! The requests that are sent to the server.

use vstd::prelude::*;

verus! {

/// The server and the key that it is asked with.
#[derive(Debug, PartialEq, Eq)]
pub struct Client {
    pub base_url: String,
    pub api_key: String,
}

#[derive(Debug, Clone, Copy, PartialEq, Eq, Structural)]
pub enum Method {
    Get,
    Post,
    Put,
}

/// The JSON object that a request carries.
#[derive(Debug, PartialEq, Eq)]
pub enum Body {
    /// `albumIds`, a list of this one, `page` and `size`.
    AlbumSearch { album_id: String, page: usize, size: usize },
    /// `dateTimeOriginal`.
    DateTimeOriginal { timestamp: String },
}

/// What a request's body says.
pub enum BodyView {
    AlbumSearch { album_id: Seq<char>, page: int, size: int },
    DateTimeOriginal { timestamp: Seq<char> },
}

impl View for Body {
    type V = BodyView;

    open spec fn view(&self) -> BodyView {
        match self {
            Body::AlbumSearch { album_id, page, size } => BodyView::AlbumSearch {
                album_id: album_id@,
                page: *page as int,
                size: *size as int,
            },
            Body::DateTimeOriginal { timestamp } => BodyView::DateTimeOriginal {
                timestamp: timestamp@,
            },
        }
    }
}

/// A request that is ready to be sent.
#[derive(Debug, PartialEq, Eq)]
pub struct Request {
    pub method: Method,
    pub url: String,
    /// Names and values, in the order in which they are set.
    pub headers: Vec<(String, String)>,
    /// Names and values, in the order in which they are appended to the URL.
    pub query: Vec<(String, String)>,
    pub body: Option<Body>,
}

/// What a request says.
pub struct RequestView {
    pub method: Method,
    pub url: Seq<char>,
    pub headers: Seq<(Seq<char>, Seq<char>)>,
    pub query: Seq<(Seq<char>, Seq<char>)>,
    pub body: Option<BodyView>,
}

/// Names and values, each as its characters.
pub open spec fn pairs_view(pairs: Seq<(String, String)>) -> Seq<(Seq<char>, Seq<char>)> {
    pairs.map_values(|pair: (String, String)| (pair.0@, pair.1@))
}

impl View for Request {
    type V = RequestView;

    open spec fn view(&self) -> RequestView {
        RequestView {
            method: self.method,
            url: self.url@,
            headers: pairs_view(self.headers@),
            query: pairs_view(self.query@),
            body: match self.body {
                Some(body) => Some(body@),
                None => None,
            },
        }
    }
}

/// The address of a path on the server.
pub open spec fn url_of(base_url: Seq<char>, path: Seq<char>) -> Seq<char> {
    base_url + "/"@ + path
}

/// The headers of a request without a body.
pub open spec fn plain_headers(api_key: Seq<char>) -> Seq<(Seq<char>, Seq<char>)> {
    seq![("x-api-key"@, api_key), ("Accept"@, "application/json"@)]
}

/// The headers of a request with a body.
pub open spec fn json_headers(api_key: Seq<char>) -> Seq<(Seq<char>, Seq<char>)> {
    seq![
        ("x-api-key"@, api_key),
        ("Content-Type"@, "application/json"@),
        ("Accept"@, "application/json"@),
    ]
}

/// A request for a path, with a query.
pub open spec fn query_request(
    client: Client,
    path: Seq<char>,
    query: Seq<(Seq<char>, Seq<char>)>,
) -> RequestView {
    RequestView {
        method: Method::Get,
        url: url_of(client.base_url@, path),
        headers: plain_headers(client.api_key@),
        query,
        body: None,
    }
}

/// A request to a path, with a body.
pub open spec fn body_request(
    client: Client,
    method: Method,
    path: Seq<char>,
    body: BodyView,
) -> RequestView {
    RequestView {
        method,
        url: url_of(client.base_url@, path),
        headers: json_headers(client.api_key@),
        query: Seq::empty(),
        body: Some(body),
    }
}

/// Whether the status code of an answer says that the server was content.
pub fn is_success(code: u16) -> (r: bool)
    ensures
        r == (200 <= code < 300),
{
    200 <= code && code < 300
}

/// Whether an address is another without the slashes at its end.
pub open spec fn is_trimmed(url: Seq<char>, trimmed: Seq<char>) -> bool {
    &&& trimmed.is_prefix_of(url)
    &&& trimmed.len() > 0 ==> trimmed.last() != '/'
    &&& forall|i: int| trimmed.len() <= i < url.len() ==> #[trigger] url[i] == '/'
}

/// The server's address without the slashes at its end.
pub fn trim_base_url(url: &str) -> (r: String)
    ensures
        is_trimmed(url@, r@),
{
    let mut end = url.unicode_len();
    while end > 0 && url.get_char(end - 1) == '/'
        invariant
            end <= url@.len(),
            forall|i: int| end <= i < url@.len() ==> #[trigger] url@[i] == '/',
        decreases end,
    {
        end = end - 1;
    }
    let r = url.substring_char(0, end).to_owned();
    assert(r@ =~= url@.subrange(0, end as int));
    r
}

fn pair(name: &str, value: &str) -> (r: (String, String))
    ensures
        r.0@ == name@,
        r.1@ == value@,
{
    (name.to_owned(), value.to_owned())
}

/// Names and values, each as its characters.
pub open spec fn str_pairs_view(pairs: Seq<(&str, &str)>) -> Seq<(Seq<char>, Seq<char>)> {
    pairs.map_values(|pair: (&str, &str)| (pair.0@, pair.1@))
}

fn own_pairs(pairs: &[(&str, &str)]) -> (r: Vec<(String, String)>)
    ensures
        pairs_view(r@) == str_pairs_view(pairs@),
{
    let mut r: Vec<(String, String)> = Vec::new();
    for i in 0..pairs.len()
        invariant
            r@.len() == i,
            forall|j: int|
                0 <= j < i ==> (#[trigger] r@[j]).0@ == pairs@[j].0@ && r@[j].1@ == pairs@[j].1@,
    {
        r.push(pair(pairs[i].0, pairs[i].1));
    }
    assert(pairs_view(r@) =~= str_pairs_view(pairs@));
    r
}

impl Client {
    /// A client of the server at an address.
    pub fn new(base_url: String, api_key: String) -> (r: Self)
        ensures
            r.base_url == base_url,
            r.api_key == api_key,
    {
        Self { base_url, api_key }
    }

    fn url(&self, path: &str) -> (r: String)
        ensures
            r@ == url_of(self.base_url@, path@),
    {
        let mut r = self.base_url.clone();
        r.append("/");
        r.append(path);
        r
    }

    /// Asks for a path, with an empty name in the query.
    pub fn get(&self, path: &str) -> (r: Request)
        ensures
            r@ == query_request(*self, path@, seq![("name"@, ""@)]),
    {
        let query = [("name", "")];
        let r = self.get_query(path, &query);
        assert(str_pairs_view(query@) =~= seq![("name"@, ""@)]);
        r
    }

    /// Asks for a path, with a query.
    pub fn get_query(&self, path: &str, query: &[(&str, &str)]) -> (r: Request)
        ensures
            r@ == query_request(*self, path@, str_pairs_view(query@)),
    {
        let headers = vec![
            pair("x-api-key", self.api_key.as_str()),
            pair("Accept", "application/json"),
        ];
        assert(pairs_view(headers@) =~= plain_headers(self.api_key@));
        Request {
            method: Method::Get,
            url: self.url(path),
            headers,
            query: own_pairs(query),
            body: None,
        }
    }

    fn with_body(&self, method: Method, path: &str, body: Body) -> (r: Request)
        ensures
            r@ == body_request(*self, method, path@, body@),
    {
        let headers = vec![
            pair("x-api-key", self.api_key.as_str()),
            pair("Content-Type", "application/json"),
            pair("Accept", "application/json"),
        ];
        assert(pairs_view(headers@) =~= json_headers(self.api_key@));
        let r = Request {
            method,
            url: self.url(path),
            headers,
            query: Vec::new(),
            body: Some(body),
        };
        assert(r@.query =~= Seq::empty());
        r
    }

    /// Posts a body to a path.
    pub fn post(&self, path: &str, body: Body) -> (r: Request)
        ensures
            r@ == body_request(*self, Method::Post, path@, body@),
    {
        self.with_body(Method::Post, path, body)
    }

    /// Puts a body to a path.
    pub fn put(&self, path: &str, body: Body) -> (r: Request)
        ensures
            r@ == body_request(*self, Method::Put, path@, body@),
    {
        self.with_body(Method::Put, path, body)
    }
}

/// There is one way to trim an address, and a trimmed address stays as it is.
pub proof fn law_trimming_is_final(url: Seq<char>, first: Seq<char>, second: Seq<char>)
    requires
        is_trimmed(url, first),
        is_trimmed(url, second),
    ensures
        first == second,
        is_trimmed(first, first),
{
    assert(forall|i: int| 0 <= i < first.len() ==> first[i] == url[i]);
    assert(forall|i: int| 0 <= i < second.len() ==> second[i] == url[i]);
    assert(first.len() == second.len());
    assert(first =~= second);
    assert(first =~= first.subrange(0, first.len() as int));
}

/// Behind a trimmed address, a path follows after one slash.
pub proof fn law_one_slash_before_the_path(url: Seq<char>, base_url: Seq<char>, path: Seq<char>)
    requires
        is_trimmed(url, base_url),
    ensures
        base_url.is_prefix_of(url_of(base_url, path)),
        base_url.len() > 0 ==> url_of(base_url, path)[base_url.len() - 1] != '/',
        url_of(base_url, path)[base_url.len() as int] == '/',
        url_of(base_url, path).skip(base_url.len() as int + 1) == path,
{
    reveal_strlit("/");
    let joined = url_of(base_url, path);
    assert(base_url =~= joined.subrange(0, base_url.len() as int));
    assert(joined.skip(base_url.len() as int + 1) =~= path);
}

/// Every request carries the key, and asks for JSON.
pub proof fn law_requests_carry_the_key(
    client: Client,
    method: Method,
    path: Seq<char>,
    query: Seq<(Seq<char>, Seq<char>)>,
    body: BodyView,
)
    ensures
        query_request(client, path, query).headers.contains(("x-api-key"@, client.api_key@)),
        query_request(client, path, query).headers.contains(("Accept"@, "application/json"@)),
        body_request(client, method, path, body).headers.contains(
            ("x-api-key"@, client.api_key@),
        ),
        body_request(client, method, path, body).headers.contains(
            ("Accept"@, "application/json"@),
        ),
{
    let plain = plain_headers(client.api_key@);
    let json = json_headers(client.api_key@);
    assert(plain[0] == ("x-api-key"@, client.api_key@));
    assert(plain[1] == ("Accept"@, "application/json"@));
    assert(json[0] == ("x-api-key"@, client.api_key@));
    assert(json[2] == ("Accept"@, "application/json"@));
}

/// A view shows a request as it is: its method, its URL, each header and each
/// part of the query by name and value and at its place, and its body.
pub proof fn law_request_views(request: Request)
    ensures
        request@.method == request.method,
        request@.url == request.url@,
        request@.headers.len() == request.headers@.len(),
        forall|i: int|
            0 <= i < request.headers@.len() ==> (#[trigger] request@.headers[i]).0
                == request.headers@[i].0@ && request@.headers[i].1 == request.headers@[i].1@,
        request@.query.len() == request.query@.len(),
        forall|i: int|
            0 <= i < request.query@.len() ==> (#[trigger] request@.query[i]).0
                == request.query@[i].0@ && request@.query[i].1 == request.query@[i].1@,
        request@.body is Some <==> request.body is Some,
        request.body matches Some(Body::AlbumSearch { album_id, page, size }) ==> request@.body
            == Some(
            BodyView::AlbumSearch { album_id: album_id@, page: page as int, size: size as int },
        ),
        request.body matches Some(Body::DateTimeOriginal { timestamp }) ==> request@.body == Some(
            BodyView::DateTimeOriginal { timestamp: timestamp@ },
        ),
{
}

/// The names and values of a query are taken as they are, in their order.
pub proof fn law_query_views(pairs: Seq<(&str, &str)>)
    ensures
        str_pairs_view(pairs).len() == pairs.len(),
        forall|i: int|
            0 <= i < pairs.len() ==> (#[trigger] str_pairs_view(pairs)[i]).0 == pairs[i].0@
                && str_pairs_view(pairs)[i].1 == pairs[i].1@,
{
}

/// An address is trimmed of its slashes at the end, of all of them and of
/// nothing else: what does not end with a slash, followed by any number of
/// slashes, is trimmed to itself and to nothing else.
pub proof fn law_only_slashes_at_the_end_go(base: Seq<char>, slashes: nat, trimmed: Seq<char>)
    requires
        base.len() == 0 || base[base.len() - 1] != '/',
    ensures
        is_trimmed(base + Seq::new(slashes, |i: int| '/'), trimmed) <==> trimmed == base,
{
    let url = base + Seq::new(slashes, |i: int| '/');
    assert(base =~= url.subrange(0, base.len() as int));
    assert(is_trimmed(url, base));
    if is_trimmed(url, trimmed) {
        law_trimming_is_final(url, base, trimmed);
    }
}

/// The URL of every request is the server's address, a slash and the path.
pub proof fn law_url_of_a_path(base_url: Seq<char>, path: Seq<char>)
    ensures
        url_of(base_url, path) == base_url + seq!['/'] + path,
{
    reveal_strlit("/");
    assert("/"@ =~= seq!['/']);
}

/// A request with a query is a GET that carries just the key and the wish for
/// JSON, and the query as it was given.
pub proof fn law_query_requests(
    client: Client,
    path: Seq<char>,
    query: Seq<(Seq<char>, Seq<char>)>,
)
    ensures
        query_request(client, path, query).method == Method::Get,
        query_request(client, path, query).url == client.base_url@ + seq!['/'] + path,
        query_request(client, path, query).headers == seq![
            ("x-api-key"@, client.api_key@),
            ("Accept"@, "application/json"@),
        ],
        query_request(client, path, query).query == query,
        query_request(client, path, query).body is None,
{
    law_url_of_a_path(client.base_url@, path);
}

/// A request with a body has the method and the body that were given, carries
/// just the key, the kind of its body and the wish for JSON, and has no query.
pub proof fn law_body_requests(client: Client, method: Method, path: Seq<char>, body: BodyView)
    ensures
        body_request(client, method, path, body).method == method,
        body_request(client, method, path, body).url == client.base_url@ + seq!['/'] + path,
        body_request(client, method, path, body).headers == seq![
            ("x-api-key"@, client.api_key@),
            ("Content-Type"@, "application/json"@),
            ("Accept"@, "application/json"@),
        ],
        body_request(client, method, path, body).query.len() == 0,
        body_request(client, method, path, body).body == Some(body),
{
    law_url_of_a_path(client.base_url@, path);
}

} // verus!
