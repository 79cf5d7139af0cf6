//! Authentication tokens: reading them from `Set-Cookie` headers, writing them
//! back, ordering them, and the headers that present them.

use vstd::prelude::*;

use crate::error::{Error, ErrorView};
use crate::text::{
    chars_of, extend_chars, extend_str, find_char, first_index, range_eq, string_of,
    string_of_range,
};

verus! {

/// A token given by z/OSMF when logging in.
#[derive(Clone, Debug, PartialEq, Eq, Hash)]
pub enum AuthToken {
    Jwt(String),
    Ltpa2(String),
}

/// The mathematical value of an [`AuthToken`].
pub enum AuthTokenView {
    Jwt(Seq<char>),
    Ltpa2(Seq<char>),
}

impl View for AuthToken {
    type V = AuthTokenView;

    open spec fn view(&self) -> AuthTokenView {
        match self {
            AuthToken::Jwt(v) => AuthTokenView::Jwt(v@),
            AuthToken::Ltpa2(v) => AuthTokenView::Ltpa2(v@),
        }
    }
}

/// The value that a token carries.
pub open spec fn token_value(t: AuthTokenView) -> Seq<char> {
    match t {
        AuthTokenView::Jwt(v) => v,
        AuthTokenView::Ltpa2(v) => v,
    }
}

/// The cookie text of a token: `jwtToken=...` or `LtpaToken2=...`.
pub open spec fn token_text(t: AuthTokenView) -> Seq<char> {
    match t {
        AuthTokenView::Jwt(v) => "jwtToken="@ + v,
        AuthTokenView::Ltpa2(v) => "LtpaToken2="@ + v,
    }
}

/// Reading a token from `name=value`: the text is split at its first `=`, and
/// the name must be `jwtToken` or `LtpaToken2`.
pub open spec fn token_from_text(s: Seq<char>) -> Result<AuthTokenView, ErrorView> {
    match first_index(s, '=') {
        None => Err(ErrorView::InvalidValue("invalid set-cookie header value: "@ + s)),
        Some(i) => {
            let name = s.take(i);
            let value = s.skip(i + 1);
            if name == "jwtToken"@ {
                Ok(AuthTokenView::Jwt(value))
            } else if name == "LtpaToken2"@ {
                Ok(AuthTokenView::Ltpa2(value))
            } else {
                Err(ErrorView::InvalidValue("invalid token name: "@ + name))
            }
        },
    }
}

/// Reading a token from the value of a `Set-Cookie` header: what stands before
/// its first `;` is read as `name=value`.
pub open spec fn token_from_set_cookie(s: Seq<char>) -> Result<AuthTokenView, ErrorView> {
    match first_index(s, ';') {
        None => Err(ErrorView::InvalidValue("invalid set-cookie header value: "@ + s)),
        Some(i) => token_from_text(s.take(i)),
    }
}

/// The header that presents a token to z/OSMF: a bearer authorization for a
/// JWT, a cookie for an LTPA token.
pub open spec fn token_header(t: AuthTokenView) -> (Seq<char>, Seq<char>) {
    match t {
        AuthTokenView::Jwt(v) => ("authorization"@, "Bearer "@ + v),
        AuthTokenView::Ltpa2(v) => ("cookie"@, "LtpaToken2="@ + v),
    }
}

// ---------------------------------------------------------------------------
// Ordering
// ---------------------------------------------------------------------------

/// Lexicographic order on strings of characters.
pub open spec fn chars_lt(a: Seq<char>, b: Seq<char>) -> bool
    decreases a.len(),
{
    if a.len() == 0 {
        b.len() > 0
    } else if b.len() == 0 {
        false
    } else if a[0] != b[0] {
        a[0] < b[0]
    } else {
        chars_lt(a.drop_first(), b.drop_first())
    }
}

/// The rank of a token's kind: JWT tokens come before LTPA tokens.
pub open spec fn token_rank(t: AuthTokenView) -> int {
    match t {
        AuthTokenView::Jwt(_) => 0,
        AuthTokenView::Ltpa2(_) => 1,
    }
}

/// The order of tokens: by kind, then by value.
pub open spec fn token_lt(a: AuthTokenView, b: AuthTokenView) -> bool {
    token_rank(a) < token_rank(b) || (token_rank(a) == token_rank(b) && chars_lt(
        token_value(a),
        token_value(b),
    ))
}

/// `s` is in ascending token order.
pub open spec fn tokens_sorted(s: Seq<AuthTokenView>) -> bool {
    forall|i: int, j: int| 0 <= i < j < s.len() ==> !token_lt(#[trigger] s[j], #[trigger] s[i])
}

proof fn lemma_chars_lt_irreflexive(a: Seq<char>)
    ensures
        !chars_lt(a, a),
    decreases a.len(),
{
    if a.len() > 0 {
        lemma_chars_lt_irreflexive(a.drop_first());
    }
}

proof fn lemma_chars_lt_transitive(a: Seq<char>, b: Seq<char>, c: Seq<char>)
    requires
        chars_lt(a, b),
        chars_lt(b, c),
    ensures
        chars_lt(a, c),
    decreases a.len(),
{
    if a.len() > 0 && b.len() > 0 && c.len() > 0 && a[0] == b[0] && b[0] == c[0] {
        lemma_chars_lt_transitive(a.drop_first(), b.drop_first(), c.drop_first());
    }
}

proof fn lemma_chars_lt_total(a: Seq<char>, b: Seq<char>)
    ensures
        a == b || chars_lt(a, b) || chars_lt(b, a),
    decreases a.len(),
{
    if a.len() > 0 && b.len() > 0 && a[0] == b[0] {
        lemma_chars_lt_total(a.drop_first(), b.drop_first());
        if a.drop_first() == b.drop_first() {
            assert(a =~= seq![a[0]] + a.drop_first());
            assert(b =~= seq![b[0]] + b.drop_first());
        }
    } else if a.len() == 0 && b.len() == 0 {
        assert(a =~= b);
    }
}

proof fn lemma_chars_lt_asymmetric(a: Seq<char>, b: Seq<char>)
    requires
        chars_lt(a, b),
    ensures
        !chars_lt(b, a),
{
    if chars_lt(b, a) {
        lemma_chars_lt_transitive(a, b, a);
        lemma_chars_lt_irreflexive(a);
    }
}

/// The token order is a strict total order.
pub proof fn lemma_token_order(a: AuthTokenView, b: AuthTokenView, c: AuthTokenView)
    ensures
        !token_lt(a, a),
        token_lt(a, b) && token_lt(b, c) ==> token_lt(a, c),
        a == b || token_lt(a, b) || token_lt(b, a),
        token_lt(a, b) ==> !token_lt(b, a),
{
    lemma_chars_lt_irreflexive(token_value(a));
    if token_lt(a, b) && token_lt(b, c) && token_rank(a) == token_rank(b) && token_rank(b)
        == token_rank(c) {
        lemma_chars_lt_transitive(token_value(a), token_value(b), token_value(c));
    }
    lemma_chars_lt_total(token_value(a), token_value(b));
    if token_lt(a, b) && token_rank(a) == token_rank(b) {
        lemma_chars_lt_asymmetric(token_value(a), token_value(b));
    }
}

/// Compares two strings lexicographically.
fn string_lt(a: &String, b: &String) -> (r: bool)
    ensures
        r == chars_lt(a@, b@),
{
    let x = chars_of(a.as_str());
    let y = chars_of(b.as_str());
    let mut i: usize = 0;
    proof {
        assert(x@.skip(0) =~= x@);
        assert(y@.skip(0) =~= y@);
    }
    while i < x.len() && i < y.len() && x[i] == y[i]
        invariant
            0 <= i <= x.len(),
            i <= y.len(),
            x@ == a@,
            y@ == b@,
            chars_lt(a@, b@) == chars_lt(x@.skip(i as int), y@.skip(i as int)),
        decreases x.len() - i,
    {
        proof {
            assert(x@.skip(i as int).drop_first() =~= x@.skip(i + 1));
            assert(y@.skip(i as int).drop_first() =~= y@.skip(i + 1));
        }
        i = i + 1;
    }
    if i == x.len() {
        i < y.len()
    } else if i == y.len() {
        false
    } else {
        x[i] < y[i]
    }
}

impl AuthToken {
    /// Whether this token comes before `other`.
    pub fn lt(&self, other: &AuthToken) -> (r: bool)
        ensures
            r == token_lt(self@, other@),
    {
        match (self, other) {
            (AuthToken::Jwt(a), AuthToken::Jwt(b)) => string_lt(a, b),
            (AuthToken::Ltpa2(a), AuthToken::Ltpa2(b)) => string_lt(a, b),
            (AuthToken::Jwt(_), AuthToken::Ltpa2(_)) => true,
            (AuthToken::Ltpa2(_), AuthToken::Jwt(_)) => false,
        }
    }

    /// A copy of this token.
    pub fn duplicate(&self) -> (r: AuthToken)
        ensures
            r == *self,
    {
        match self {
            AuthToken::Jwt(v) => AuthToken::Jwt(v.clone()),
            AuthToken::Ltpa2(v) => AuthToken::Ltpa2(v.clone()),
        }
    }

    /// Reads a token from `name=value`.
    pub fn from_str(s: &str) -> (r: Result<AuthToken, Error>)
        ensures
            match r {
                Ok(t) => token_from_text(s@) == Ok::<AuthTokenView, ErrorView>(t@),
                Err(e) => token_from_text(s@) == Err::<AuthTokenView, ErrorView>(e@),
            },
    {
        let c = chars_of(s);
        proof {
            assert(c@.take(c.len() as int) =~= s@);
        }
        Self::from_chars(&c, c.len())
    }

    /// Reads a token from `c[..end]`.
    fn from_chars(c: &Vec<char>, end: usize) -> (r: Result<AuthToken, Error>)
        requires
            end <= c.len(),
        ensures
            match r {
                Ok(t) => token_from_text(c@.take(end as int)) == Ok::<AuthTokenView, ErrorView>(
                    t@,
                ),
                Err(e) => token_from_text(c@.take(end as int)) == Err::<AuthTokenView, ErrorView>(
                    e@,
                ),
            },
    {
        let ghost s = c@.take(end as int);
        proof {
            assert(c@.subrange(0, end as int) =~= s);
        }
        match find_char(c, '=', 0, end) {
            None => {
                let mut m = chars_of("invalid set-cookie header value: ");
                let t = string_of_range(c, 0, end);
                extend_str(&mut m, t.as_str());
                Err(Error::InvalidValue(string_of(&m)))
            },
            Some(i) => {
                proof {
                    assert(s.take(i as int) =~= c@.subrange(0, i as int));
                    assert(s.skip(i + 1) =~= c@.subrange(i + 1, end as int));
                }
                let value = string_of_range(c, i + 1, end);
                let jwt = chars_of("jwtToken");
                let ltpa = chars_of("LtpaToken2");
                if range_eq(c, 0, i, &jwt) {
                    Ok(AuthToken::Jwt(value))
                } else if range_eq(c, 0, i, &ltpa) {
                    Ok(AuthToken::Ltpa2(value))
                } else {
                    let mut m = chars_of("invalid token name: ");
                    let name = string_of_range(c, 0, i);
                    extend_str(&mut m, name.as_str());
                    Err(Error::InvalidValue(string_of(&m)))
                }
            },
        }
    }

    /// Reads a token from the value of a `Set-Cookie` header.
    pub fn from_set_cookie(s: &str) -> (r: Result<AuthToken, Error>)
        ensures
            match r {
                Ok(t) => token_from_set_cookie(s@) == Ok::<AuthTokenView, ErrorView>(t@),
                Err(e) => token_from_set_cookie(s@) == Err::<AuthTokenView, ErrorView>(e@),
            },
    {
        let c = chars_of(s);
        proof {
            assert(c@.subrange(0, c.len() as int) =~= s@);
        }
        match find_char(&c, ';', 0, c.len()) {
            None => {
                let mut m = chars_of("invalid set-cookie header value: ");
                extend_chars(&mut m, &c);
                Err(Error::InvalidValue(string_of(&m)))
            },
            Some(i) => {
                proof {
                    assert(c@.take(i as int) =~= s@.take(i as int));
                }
                Self::from_chars(&c, i)
            },
        }
    }

    /// The cookie text of this token, as its `Display` writes it.
    pub fn to_string(&self) -> (r: String)
        ensures
            r@ == token_text(self@),
    {
        let (prefix, value) = match self {
            AuthToken::Jwt(v) => ("jwtToken=", v),
            AuthToken::Ltpa2(v) => ("LtpaToken2=", v),
        };
        let mut m = chars_of(prefix);
        extend_str(&mut m, value.as_str());
        string_of(&m)
    }

    /// The header, name and value, that presents this token.
    pub fn header(&self) -> (r: (String, String))
        ensures
            (r.0@, r.1@) == token_header(self@),
    {
        match self {
            AuthToken::Jwt(v) => {
                let mut m = chars_of("Bearer ");
                extend_str(&mut m, v.as_str());
                (String::from_str("authorization"), string_of(&m))
            },
            AuthToken::Ltpa2(v) => {
                let mut m = chars_of("LtpaToken2=");
                extend_str(&mut m, v.as_str());
                (String::from_str("cookie"), string_of(&m))
            },
        }
    }
}

/// Reading the cookie text of a token gives the token back.
pub proof fn lemma_token_round_trip(t: AuthTokenView)
    ensures
        token_from_text(token_text(t)) == Ok::<AuthTokenView, ErrorView>(t),
{
    reveal_strlit("jwtToken=");
    reveal_strlit("LtpaToken2=");
    reveal_strlit("jwtToken");
    reveal_strlit("LtpaToken2");
    let s = token_text(t);
    s.index_of_first_ensures('=');
    match t {
        AuthTokenView::Jwt(v) => {
            assert(s[8] == '=');
            match s.index_of_first('=') {
                Some(k) => {
                    assert(k == 8);
                },
                None => {},
            }
            assert(s.take(8) =~= "jwtToken"@);
            assert(s.skip(9) =~= v);
        },
        AuthTokenView::Ltpa2(v) => {
            assert(s[10] == '=');
            match s.index_of_first('=') {
                Some(k) => {
                    assert(k == 10);
                },
                None => {},
            }
            assert(s.take(10) =~= "LtpaToken2"@);
            assert(s.skip(11) =~= v);
        },
    }
}

/// A `Set-Cookie` value made of a token's cookie text, a `;` and attributes
/// gives the token back, when the token's value holds no `;`.
pub proof fn lemma_set_cookie_round_trip(t: AuthTokenView, attributes: Seq<char>)
    requires
        !token_value(t).contains(';'),
    ensures
        token_from_set_cookie(token_text(t) + seq![';'] + attributes) == Ok::<
            AuthTokenView,
            ErrorView,
        >(t),
{
    reveal_strlit("jwtToken=");
    reveal_strlit("LtpaToken2=");
    let p = token_text(t);
    let s = p + seq![';'] + attributes;
    s.index_of_first_ensures(';');
    assert(s[p.len() as int] == ';');
    assert forall|j: int| 0 <= j < p.len() implies s[j] != ';' by {
        assert(s[j] == p[j]);
        match t {
            AuthTokenView::Jwt(v) => {
                if j >= 9 {
                    assert(p[j] == v[j - 9]);
                }
            },
            AuthTokenView::Ltpa2(v) => {
                if j >= 11 {
                    assert(p[j] == v[j - 11]);
                }
            },
        }
    }
    match s.index_of_first(';') {
        Some(k) => {
            assert(k == p.len());
        },
        None => {},
    }
    assert(s.take(p.len() as int) =~= p);
    lemma_token_round_trip(t);
}

// ---------------------------------------------------------------------------
// Logging in
// ---------------------------------------------------------------------------

/// The view of each token of a sequence.
pub open spec fn tokens_view(s: Seq<AuthToken>) -> Seq<AuthTokenView> {
    s.map_values(|t: AuthToken| t@)
}

/// The tokens read from a list of `Set-Cookie` values, in order, skipping the
/// values that do not hold a token.
pub open spec fn tokens_from_set_cookies(values: Seq<Seq<char>>) -> Seq<AuthTokenView>
    decreases values.len(),
{
    if values.len() == 0 {
        Seq::empty()
    } else {
        let rest = tokens_from_set_cookies(values.drop_last());
        match token_from_set_cookie(values.last()) {
            Ok(t) => rest.push(t),
            Err(_) => rest,
        }
    }
}

/// The views of a list of strings.
pub open spec fn strings_view(s: Seq<String>) -> Seq<Seq<char>> {
    s.map_values(|v: String| v@)
}

proof fn lemma_insert_to_multiset(s: Seq<AuthTokenView>, p: int, x: AuthTokenView)
    requires
        0 <= p <= s.len(),
    ensures
        s.insert(p, x).to_multiset() =~= s.to_multiset().insert(x),
{
    broadcast use vstd::seq_lib::group_to_multiset_ensures;

    let t = s.insert(p, x);
    assert(t.remove(p) =~= s);
    assert(t[p] == x);
    assert(t.contains(x));
}

/// Inserts `x` into the sorted vector `v` after every token that does not come
/// after it.
fn insert_sorted(v: &mut Vec<AuthToken>, x: AuthToken)
    requires
        tokens_sorted(tokens_view(old(v)@)),
    ensures
        tokens_sorted(tokens_view(final(v)@)),
        tokens_view(final(v)@).to_multiset() =~= tokens_view(old(v)@).to_multiset().insert(x@),
{
    let ghost s = tokens_view(v@);
    let mut p: usize = 0;
    while p < v.len() && !x.lt(&v[p])
        invariant
            0 <= p <= v.len(),
            s == tokens_view(v@),
            forall|k: int| 0 <= k < p ==> !token_lt(x@, #[trigger] s[k]),
        decreases v.len() - p,
    {
        p = p + 1;
    }
    let ghost xv = x@;
    v.insert(p, x);
    proof {
        let t = tokens_view(v@);
        assert(t =~= s.insert(p as int, xv));
        lemma_insert_to_multiset(s, p as int, xv);
        assert forall|i: int, j: int| 0 <= i < j < t.len() implies !token_lt(
            #[trigger] t[j],
            #[trigger] t[i],
        ) by {
            lemma_token_order(xv, s[i], s[i]);
            if i < p && j == p {
                lemma_token_order(xv, s[i], xv);
            } else if i < p && j > p {
                assert(t[j] == s[j - 1]);
                assert(t[i] == s[i]);
                if i != j - 1 {
                    assert(!token_lt(s[j - 1], s[i]));
                }
            } else if i == p && j > p {
                assert(t[j] == s[j - 1]);
                // x comes before s[p], which does not come after s[j - 1]
                lemma_token_order(xv, s[p as int], s[j - 1]);
                lemma_token_order(s[j - 1], xv, s[p as int]);
                lemma_token_order(s[p as int], s[j - 1], s[j - 1]);
                if p as int != j - 1 {
                    assert(!token_lt(s[j - 1], s[p as int]));
                    lemma_token_order(s[j - 1], s[p as int], xv);
                }
            } else if j < p {
                assert(t[j] == s[j]);
                assert(t[i] == s[i]);
            } else {
                assert(t[j] == s[j - 1]);
                assert(t[i] == s[i - 1]);
            }
        }
    }
}

/// The tokens held by a list of `Set-Cookie` values, in ascending order, as a
/// login answer is read: values that do not hold a token are skipped.
pub fn tokens_from_cookies(values: &Vec<String>) -> (r: Vec<AuthToken>)
    ensures
        tokens_sorted(tokens_view(r@)),
        tokens_view(r@).to_multiset() =~= tokens_from_set_cookies(
            strings_view(values@),
        ).to_multiset(),
{
    let mut out: Vec<AuthToken> = Vec::new();
    let mut i: usize = 0;
    proof {
        assert(strings_view(values@).take(0) =~= Seq::<Seq<char>>::empty());
        assert(tokens_view(out@) =~= Seq::<AuthTokenView>::empty());
    }
    while i < values.len()
        invariant
            0 <= i <= values.len(),
            tokens_sorted(tokens_view(out@)),
            tokens_view(out@).to_multiset() =~= tokens_from_set_cookies(
                strings_view(values@).take(i as int),
            ).to_multiset(),
        decreases values.len() - i,
    {
        let ghost before = strings_view(values@).take(i as int);
        let ghost after = strings_view(values@).take(i + 1);
        proof {
            assert(after.drop_last() =~= before);
            assert(after.last() == values@[i as int]@);
        }
        match AuthToken::from_set_cookie(values[i].as_str()) {
            Ok(t) => {
                proof {
                    broadcast use vstd::seq_lib::group_to_multiset_ensures;

                }
                insert_sorted(&mut out, t);
            },
            Err(_) => {},
        }
        i = i + 1;
    }
    proof {
        assert(strings_view(values@).take(values.len() as int) =~= strings_view(values@));
    }
    out
}

} // verus!
