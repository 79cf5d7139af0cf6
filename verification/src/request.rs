//! The requests that the library prepares: a method, a URL, query parameters,
//! headers and a body, with JSON bodies held as values.

use vstd::prelude::*;

use crate::error::{Error, ErrorView};
use crate::text::{chars_of, extend_str, string_of};

verus! {

/// An HTTP method.
#[derive(Clone, Copy, Debug, PartialEq, Eq, Structural, Hash)]
pub enum Method {
    Get,
    Post,
    Put,
    Delete,
}

/// A JSON value, with its members in the order in which they are written.
#[derive(Debug)]
pub enum JsonValue {
    Null,
    Bool(bool),
    Str(String),
    Array(Vec<JsonValue>),
    Object(Vec<(String, JsonValue)>),
}

/// The mathematical value of a [`JsonValue`].
#[verifier::ext_equal]
pub enum Json {
    Null,
    Bool(bool),
    Str(Seq<char>),
    Array(Seq<Json>),
    Object(Seq<(Seq<char>, Json)>),
}

impl JsonValue {
    /// The value of a JSON value.
    pub open spec fn json(&self) -> Json
        decreases self,
    {
        match self {
            JsonValue::Null => Json::Null,
            JsonValue::Bool(b) => Json::Bool(*b),
            JsonValue::Str(s) => Json::Str(s@),
            JsonValue::Array(v) => Json::Array(
                Seq::new(
                    v@.len(),
                    |i: int|
                        if 0 <= i < v@.len() {
                            proof {
                                assert(decreases_to!(self => v@[i]));
                            }
                            v@[i].json()
                        } else {
                            Json::Null
                        },
                ),
            ),
            JsonValue::Object(v) => Json::Object(
                Seq::new(
                    v@.len(),
                    |i: int|
                        if 0 <= i < v@.len() {
                            proof {
                                assert(decreases_to!(self => v@[i].1));
                            }
                            (v@[i].0@, v@[i].1.json())
                        } else {
                            (Seq::empty(), Json::Null)
                        },
                ),
            ),
        }
    }
}

impl View for JsonValue {
    type V = Json;

    open spec fn view(&self) -> Json {
        self.json()
    }
}

/// The values of the items of a JSON array.
pub open spec fn items_view(v: Seq<JsonValue>) -> Seq<Json> {
    Seq::new(v.len(), |i: int| v[i]@)
}

/// The names and values of the members of a JSON object.
pub open spec fn members_view(v: Seq<(String, JsonValue)>) -> Seq<(Seq<char>, Json)> {
    Seq::new(v.len(), |i: int| (v[i].0@, v[i].1@))
}

/// A JSON string.
pub open spec fn jstr(s: Seq<char>) -> Json {
    Json::Str(s)
}

/// A JSON string, or `null`.
pub open spec fn jopt(s: Option<Seq<char>>) -> Json {
    match s {
        Some(s) => Json::Str(s),
        None => Json::Null,
    }
}

/// A member, given only when it has a value (a member that serde skips when it
/// is `None`).
pub open spec fn member_opt(name: Seq<char>, v: Option<Json>) -> Seq<(Seq<char>, Json)> {
    match v {
        Some(v) => seq![(name, v)],
        None => Seq::empty(),
    }
}

/// A string member's value, when there is one.
pub open spec fn str_json(s: Option<String>) -> Option<Json> {
    match s {
        Some(v) => Some(Json::Str(v@)),
        None => None,
    }
}

/// A boolean member's value, when there is one.
pub open spec fn bool_json(b: Option<bool>) -> Option<Json> {
    match b {
        Some(v) => Some(Json::Bool(v)),
        None => None,
    }
}

/// The members of a JSON object under construction.
pub struct Members {
    pub items: Vec<(String, JsonValue)>,
}

impl View for Members {
    type V = Seq<(Seq<char>, Json)>;

    open spec fn view(&self) -> Seq<(Seq<char>, Json)> {
        members_view(self.items@)
    }
}

impl Members {
    /// No members.
    pub fn new() -> (r: Members)
        ensures
            r@ == Seq::<(Seq<char>, Json)>::empty(),
    {
        let r = Members { items: Vec::new() };
        proof {
            assert(r@ =~= Seq::<(Seq<char>, Json)>::empty());
        }
        r
    }

    /// Adds a member.
    pub fn add(&mut self, name: &str, value: JsonValue)
        ensures
            final(self)@ == old(self)@.push((name@, value@)),
    {
        let ghost v = value@;
        self.items.push((String::from_str(name), value));
        proof {
            assert(self@ =~= old(self)@.push((name@, v)));
        }
    }

    /// Adds a string member.
    pub fn add_str(&mut self, name: &str, value: &str)
        ensures
            final(self)@ == old(self)@.push((name@, Json::Str(value@))),
    {
        self.add(name, JsonValue::Str(String::from_str(value)));
    }

    /// Adds a boolean member.
    pub fn add_bool(&mut self, name: &str, value: bool)
        ensures
            final(self)@ == old(self)@.push((name@, Json::Bool(value))),
    {
        self.add(name, JsonValue::Bool(value));
    }

    /// Adds a member when it has a value.
    pub fn add_opt(&mut self, name: &str, value: Option<JsonValue>)
        ensures
            final(self)@ == old(self)@ + member_opt(
                name@,
                match value {
                    Some(v) => Some(v@),
                    None => None,
                },
            ),
    {
        match value {
            Some(v) => {
                let ghost vv = v@;
                self.add(name, v);
                proof {
                    assert(old(self)@.push((name@, vv)) =~= old(self)@ + seq![(name@, vv)]);
                }
            },
            None => {
                assert(old(self)@ + Seq::<(Seq<char>, Json)>::empty() =~= old(self)@);
            },
        }
    }

    /// Adds a string member when it has a value.
    pub fn add_opt_str(&mut self, name: &str, value: &Option<String>)
        ensures
            final(self)@ == old(self)@ + member_opt(
                name@,
                match value {
                    Some(v) => Some(Json::Str(v@)),
                    None => None,
                },
            ),
    {
        let v = match value {
            Some(s) => Some(JsonValue::Str(s.clone())),
            None => None,
        };
        self.add_opt(name, v);
    }

    /// Adds a boolean member when it has a value.
    pub fn add_opt_bool(&mut self, name: &str, value: Option<bool>)
        ensures
            final(self)@ == old(self)@ + member_opt(
                name@,
                match value {
                    Some(v) => Some(Json::Bool(v)),
                    None => None,
                },
            ),
    {
        let v = match value {
            Some(b) => Some(JsonValue::Bool(b)),
            None => None,
        };
        self.add_opt(name, v);
    }

    /// The JSON object of these members.
    pub fn into_object(self) -> (r: JsonValue)
        ensures
            r@ == Json::Object(self@),
    {
        let ghost m = self@;
        let r = JsonValue::Object(self.items);
        proof {
            assert(r@ is Object);
            assert(r@->Object_0 =~= m);
        }
        r
    }
}

/// A JSON array of strings.
pub fn json_strings(v: &Vec<String>) -> (r: JsonValue)
    ensures
        r@ == Json::Array(Seq::new(v@.len(), |i: int| Json::Str(v@[i]@))),
{
    let mut items: Vec<JsonValue> = Vec::new();
    let mut i: usize = 0;
    while i < v.len()
        invariant
            0 <= i <= v.len(),
            items@.len() == i,
            forall|k: int| 0 <= k < i ==> (#[trigger] items@[k])@ == Json::Str(v@[k]@),
        decreases v.len() - i,
    {
        items.push(JsonValue::Str(v[i].clone()));
        i = i + 1;
    }
    proof {
        assert(items_view(items@) =~= Seq::new(v@.len(), |i: int| Json::Str(v@[i]@)));
    }
    json_array(items)
}

/// A JSON array of the given items.
pub fn json_array(items: Vec<JsonValue>) -> (r: JsonValue)
    ensures
        r@ == Json::Array(items_view(items@)),
{
    let ghost m = items_view(items@);
    let r = JsonValue::Array(items);
    proof {
        assert(r@ is Array);
        assert(r@->Array_0 =~= m);
    }
    r
}

// ---------------------------------------------------------------------------
// Requests
// ---------------------------------------------------------------------------

/// The body of a request.
#[derive(Debug)]
pub enum Body {
    Empty,
    Json(JsonValue),
    Text(String),
    Binary(Vec<u8>),
}

/// The mathematical value of a [`Body`].
pub enum BodyView {
    Empty,
    Json(Json),
    Text(Seq<char>),
    Binary(Seq<u8>),
}

impl View for Body {
    type V = BodyView;

    open spec fn view(&self) -> BodyView {
        match self {
            Body::Empty => BodyView::Empty,
            Body::Json(j) => BodyView::Json(j@),
            Body::Text(s) => BodyView::Text(s@),
            Body::Binary(b) => BodyView::Binary(b@),
        }
    }
}

/// The names and values of a list of pairs of strings.
pub open spec fn pairs_view(v: Seq<(String, String)>) -> Seq<(Seq<char>, Seq<char>)> {
    Seq::new(v.len(), |i: int| (v[i].0@, v[i].1@))
}

/// A request to z/OSMF: the query parameters and headers in the order in
/// which they are sent.
#[derive(Debug)]
pub struct Request {
    pub method: Method,
    pub url: String,
    pub query: Vec<(String, String)>,
    pub headers: Vec<(String, String)>,
    pub body: Body,
}

/// The mathematical value of a [`Request`].
pub struct RequestView {
    pub method: Method,
    pub url: Seq<char>,
    pub query: Seq<(Seq<char>, Seq<char>)>,
    pub headers: Seq<(Seq<char>, Seq<char>)>,
    pub body: BodyView,
}

impl View for Request {
    type V = RequestView;

    open spec fn view(&self) -> RequestView {
        RequestView {
            method: self.method,
            url: self.url@,
            query: pairs_view(self.query@),
            headers: pairs_view(self.headers@),
            body: self.body@,
        }
    }
}

/// The view of a request that may not have been made.
pub open spec fn request_result(r: Result<Request, Error>) -> Result<RequestView, ErrorView> {
    match r {
        Ok(q) => Ok(q@),
        Err(e) => Err(e@),
    }
}

/// A request with no query parameters, headers or body.
pub open spec fn request_to(method: Method, url: Seq<char>) -> RequestView {
    RequestView { method, url, query: Seq::empty(), headers: Seq::empty(), body: BodyView::Empty }
}

impl RequestView {
    /// This request with one more query parameter.
    pub open spec fn with_query(self, name: Seq<char>, value: Seq<char>) -> RequestView {
        RequestView { query: self.query.push((name, value)), ..self }
    }

    /// This request with one more query parameter, when there is a value.
    pub open spec fn with_query_opt(
        self,
        name: Seq<char>,
        value: Option<Seq<char>>,
    ) -> RequestView {
        match value {
            Some(v) => self.with_query(name, v),
            None => self,
        }
    }

    /// This request with one more query parameter, when `cond` holds.
    pub open spec fn with_query_if(
        self,
        cond: bool,
        name: Seq<char>,
        value: Seq<char>,
    ) -> RequestView {
        if cond {
            self.with_query(name, value)
        } else {
            self
        }
    }

    /// This request with one more header, when `cond` holds.
    pub open spec fn with_header_if(
        self,
        cond: bool,
        name: Seq<char>,
        value: Seq<char>,
    ) -> RequestView {
        if cond {
            self.with_header(name, value)
        } else {
            self
        }
    }

    /// This request with one more header.
    pub open spec fn with_header(self, name: Seq<char>, value: Seq<char>) -> RequestView {
        RequestView { headers: self.headers.push((name, value)), ..self }
    }

    /// This request with one more header, when there is a value.
    pub open spec fn with_header_opt(
        self,
        name: Seq<char>,
        value: Option<Seq<char>>,
    ) -> RequestView {
        match value {
            Some(v) => self.with_header(name, v),
            None => self,
        }
    }

    /// This request with the given body.
    pub open spec fn with_body(self, body: BodyView) -> RequestView {
        RequestView { body, ..self }
    }

    /// This request with a JSON body.
    pub open spec fn with_json(self, body: Json) -> RequestView {
        self.with_body(BodyView::Json(body))
    }
}

/// The values given under `name` among name-value pairs (query parameters
/// or headers), in their order.
pub open spec fn values_named(
    pairs: Seq<(Seq<char>, Seq<char>)>,
    name: Seq<char>,
) -> Seq<Seq<char>>
    decreases pairs.len(),
{
    if pairs.len() == 0 {
        Seq::empty()
    } else {
        let rest = values_named(pairs.drop_last(), name);
        if pairs.last().0 == name {
            rest.push(pairs.last().1)
        } else {
            rest
        }
    }
}

/// The value of an optional setting as a sequence of at most one value.
pub open spec fn opt_values(value: Option<Seq<char>>) -> Seq<Seq<char>> {
    match value {
        Some(v) => seq![v],
        None => Seq::empty(),
    }
}

/// One more pair adds its value to those of its name and leaves the other
/// names alone.
pub proof fn lemma_values_named_push(
    pairs: Seq<(Seq<char>, Seq<char>)>,
    p: (Seq<char>, Seq<char>),
    name: Seq<char>,
)
    ensures
        values_named(pairs.push(p), name) == (if p.0 == name {
            values_named(pairs, name).push(p.1)
        } else {
            values_named(pairs, name)
        }),
{
    assert(pairs.push(p).drop_last() =~= pairs);
}

/// What an optional query parameter adds to the values of a name.
pub proof fn lemma_query_opt_values(
    r: RequestView,
    n: Seq<char>,
    v: Option<Seq<char>>,
    name: Seq<char>,
)
    ensures
        values_named(r.with_query_opt(n, v).query, name) == (if n == name {
            values_named(r.query, name) + opt_values(v)
        } else {
            values_named(r.query, name)
        }),
{
    if let Some(x) = v {
        lemma_values_named_push(r.query, (n, x), name);
        assert(values_named(r.query, name).push(x) =~= values_named(r.query, name) + seq![x]);
    } else {
        assert(values_named(r.query, name) + Seq::<Seq<char>>::empty() =~= values_named(r.query, name));
    }
}

/// What a query parameter added on a condition adds to the values of a name.
pub proof fn lemma_query_if_values(
    r: RequestView,
    cond: bool,
    n: Seq<char>,
    v: Seq<char>,
    name: Seq<char>,
)
    ensures
        values_named(r.with_query_if(cond, n, v).query, name) == (if cond && n == name {
            values_named(r.query, name).push(v)
        } else {
            values_named(r.query, name)
        }),
{
    if cond {
        lemma_values_named_push(r.query, (n, v), name);
    }
}

/// What a header adds to the values of a name.
pub proof fn lemma_header_values(r: RequestView, n: Seq<char>, v: Seq<char>, name: Seq<char>)
    ensures
        values_named(r.with_header(n, v).headers, name) == (if n == name {
            values_named(r.headers, name).push(v)
        } else {
            values_named(r.headers, name)
        }),
{
    lemma_values_named_push(r.headers, (n, v), name);
}

/// What an optional header adds to the values of a name.
pub proof fn lemma_header_opt_values(
    r: RequestView,
    n: Seq<char>,
    v: Option<Seq<char>>,
    name: Seq<char>,
)
    ensures
        values_named(r.with_header_opt(n, v).headers, name) == (if n == name {
            values_named(r.headers, name) + opt_values(v)
        } else {
            values_named(r.headers, name)
        }),
{
    if let Some(x) = v {
        lemma_values_named_push(r.headers, (n, x), name);
        assert(values_named(r.headers, name).push(x) =~= values_named(r.headers, name) + seq![x]);
    } else {
        assert(values_named(r.headers, name) + Seq::<Seq<char>>::empty() =~= values_named(r.headers, name));
    }
}

/// The URL of a resource: the base URL followed by the path.
pub open spec fn url_of(base: Seq<char>, path: Seq<char>) -> Seq<char> {
    base + path
}

impl Request {
    /// A request to `base` followed by `path`, with nothing else.
    pub fn new(method: Method, base: &str, path: &Vec<char>) -> (r: Request)
        ensures
            r@ == request_to(method, url_of(base@, path@)),
    {
        let mut u = chars_of(base);
        crate::text::extend_chars(&mut u, path);
        let r = Request {
            method,
            url: string_of(&u),
            query: Vec::new(),
            headers: Vec::new(),
            body: Body::Empty,
        };
        proof {
            assert(pairs_view(r.query@) =~= Seq::<(Seq<char>, Seq<char>)>::empty());
            assert(pairs_view(r.headers@) =~= Seq::<(Seq<char>, Seq<char>)>::empty());
        }
        r
    }

    /// Adds a query parameter.
    pub fn add_query(&mut self, name: &str, value: String)
        ensures
            final(self)@ == old(self)@.with_query(name@, value@),
    {
        let ghost v = value@;
        self.query.push((String::from_str(name), value));
        proof {
            assert(pairs_view(self.query@) =~= pairs_view(old(self).query@).push((name@, v)));
        }
    }

    /// Adds a query parameter when there is a value.
    pub fn add_query_opt(&mut self, name: &str, value: &Option<String>)
        ensures
            final(self)@ == old(self)@.with_query_opt(
                name@,
                match value {
                    Some(v) => Some(v@),
                    None => None,
                },
            ),
    {
        match value {
            Some(v) => self.add_query(name, v.clone()),
            None => {},
        }
    }

    /// Adds a query parameter when `cond` holds.
    pub fn add_query_if(&mut self, cond: bool, name: &str, value: &str)
        ensures
            final(self)@ == old(self)@.with_query_if(cond, name@, value@),
    {
        if cond {
            self.add_query(name, String::from_str(value));
        }
    }

    /// Adds a header when `cond` holds.
    pub fn add_header_if(&mut self, cond: bool, name: &str, value: &str)
        ensures
            final(self)@ == old(self)@.with_header_if(cond, name@, value@),
    {
        if cond {
            self.add_header(name, String::from_str(value));
        }
    }

    /// Adds a header.
    pub fn add_header(&mut self, name: &str, value: String)
        ensures
            final(self)@ == old(self)@.with_header(name@, value@),
    {
        let ghost v = value@;
        self.headers.push((String::from_str(name), value));
        proof {
            assert(pairs_view(self.headers@) =~= pairs_view(old(self).headers@).push((name@, v)));
        }
    }

    /// Adds a header whose name is computed.
    pub fn add_header_string(&mut self, name: String, value: String)
        ensures
            final(self)@ == old(self)@.with_header(name@, value@),
    {
        let ghost n = name@;
        let ghost v = value@;
        self.headers.push((name, value));
        proof {
            assert(pairs_view(self.headers@) =~= pairs_view(old(self).headers@).push((n, v)));
        }
    }

    /// Adds a header when there is a value.
    pub fn add_header_opt(&mut self, name: &str, value: &Option<String>)
        ensures
            final(self)@ == old(self)@.with_header_opt(
                name@,
                match value {
                    Some(v) => Some(v@),
                    None => None,
                },
            ),
    {
        match value {
            Some(v) => self.add_header(name, v.clone()),
            None => {},
        }
    }

    /// Sets the body.
    pub fn set_body(&mut self, body: Body)
        ensures
            final(self)@ == old(self)@.with_body(body@),
    {
        self.body = body;
    }

    /// Sets a JSON body.
    pub fn set_json(&mut self, body: JsonValue)
        ensures
            final(self)@ == old(self)@.with_json(body@),
    {
        self.body = Body::Json(body);
    }
}

/// The optional view of an optional string.
pub open spec fn opt_view(s: Option<String>) -> Option<Seq<char>> {
    match s {
        Some(v) => Some(v@),
        None => None,
    }
}

/// This request with one more query parameter named `name` for each of
/// `values`, in order.
pub open spec fn with_queries(
    r: RequestView,
    name: Seq<char>,
    values: Seq<Seq<char>>,
) -> RequestView
    decreases values.len(),
{
    if values.len() == 0 {
        r
    } else {
        with_queries(r, name, values.drop_last()).with_query(name, values.last())
    }
}

/// Adding the values of two lists, one list after the other, adds the values
/// of the two lists joined.
pub proof fn lemma_with_queries_append(r: RequestView, name: Seq<char>, a: Seq<Seq<char>>, b: Seq<Seq<char>>)
    ensures
        with_queries(with_queries(r, name, a), name, b) == with_queries(r, name, a + b),
    decreases b.len(),
{
    if b.len() == 0 {
        assert(a + b =~= a);
    } else {
        lemma_with_queries_append(r, name, a, b.drop_last());
        assert((a + b).drop_last() =~= a + b.drop_last());
        assert((a + b).last() == b.last());
    }
}

impl Request {
    /// Adds one query parameter named `name` for each of `values`, in order.
    pub fn add_queries(&mut self, name: &str, values: &Vec<String>)
        ensures
            final(self)@ == with_queries(old(self)@, name@, values@.map_values(|v: String| v@)),
    {
        let ghost vs = values@.map_values(|v: String| v@);
        let mut i: usize = 0;
        proof {
            assert(vs.take(0) =~= Seq::<Seq<char>>::empty());
        }
        while i < values.len()
            invariant
                0 <= i <= values.len(),
                vs == values@.map_values(|v: String| v@),
                self@ == with_queries(old(self)@, name@, vs.take(i as int)),
            decreases values.len() - i,
        {
            self.add_query(name, values[i].clone());
            proof {
                assert(vs.take(i + 1).drop_last() =~= vs.take(i as int));
                assert(vs.take(i + 1).last() == values@[i as int]@);
            }
            i = i + 1;
        }
        proof {
            assert(vs.take(values.len() as int) =~= vs);
        }
    }
}

/// The optional view of an optional string slice.
pub open spec fn opt_str_view(s: Option<&str>) -> Option<Seq<char>> {
    match s {
        Some(v) => Some(v@),
        None => None,
    }
}

/// Appends `path` to `v`.
pub fn push_path(v: &mut Vec<char>, path: &str)
    ensures
        final(v)@ == old(v)@ + path@,
{
    extend_str(v, path);
}

} // verus!
