//! The client of one z/OSMF server: its address, the token that a login gave,
//! and the sub-clients of its services.

use vstd::prelude::*;

use crate::auth::{
    lemma_token_order, strings_view, token_header, token_lt, tokens_from_cookies,
    tokens_from_set_cookies, tokens_sorted, tokens_view, AuthToken, AuthTokenView,
};
use crate::files::FilesClient;
use crate::info::InfoBuilder;
use crate::jobs::JobsClient;
use crate::request::{request_to, url_of, Method, Request};
use crate::restfiles::{header_text, header_value_text};
use crate::system_variables::SystemVariablesClient;
use crate::text::chars_of;
use crate::variables::VariablesClient;
use crate::workflows::WorkflowsClient;

verus! {

/// The texts of the header values that read as text, in order; the others
/// are skipped.
pub open spec fn header_texts(values: Seq<Seq<u8>>) -> Seq<Seq<char>>
    decreases values.len(),
{
    if values.len() == 0 {
        Seq::empty()
    } else {
        let rest = header_texts(values.drop_last());
        match header_text(values.last()) {
            Ok(t) => rest.push(t),
            Err(_) => rest,
        }
    }
}

/// The views of a list of byte strings.
pub open spec fn bytes_view(values: Seq<Vec<u8>>) -> Seq<Seq<u8>> {
    values.map_values(|v: Vec<u8>| v@)
}

/// The tokens that a login answer carries in its `Set-Cookie` headers.
pub open spec fn login_tokens(set_cookies: Seq<Seq<u8>>) -> Seq<AuthTokenView> {
    tokens_from_set_cookies(header_texts(set_cookies))
}

/// The path of the authentication service.
pub open spec fn authenticate_path() -> Seq<char> {
    "/zosmf/services/authenticate"@
}

/// The token that a login keeps, the first of the answer's tokens in order,
/// is the least of them: no token of the answer comes before it.
pub proof fn lemma_login_keeps_least_token(tokens: Seq<AuthTokenView>)
    requires
        tokens_sorted(tokens),
        tokens.len() > 0,
    ensures
        forall|i: int| 0 <= i < tokens.len() ==> !token_lt(#[trigger] tokens[i], tokens[0]),
{
    assert forall|i: int| 0 <= i < tokens.len() implies !token_lt(#[trigger] tokens[i], tokens[0]) by {
        lemma_token_order(tokens[0], tokens[0], tokens[0]);
    }
}

/// The client of one z/OSMF server.
#[derive(Clone, Debug)]
pub struct ZOsmf {
    pub url: String,
    pub token: Option<AuthToken>,
}

/// The view of an optional token.
pub open spec fn token_view(t: Option<AuthToken>) -> Option<AuthTokenView> {
    match t {
        Some(t) => Some(t@),
        None => None,
    }
}

impl ZOsmf {
    /// A client of the server at `url`, not logged in.
    pub fn new(url: &str) -> (r: ZOsmf)
        ensures
            r.url@ == url@,
            r.token is None,
    {
        ZOsmf { url: String::from_str(url), token: None }
    }

    /// The request that logs in (its credentials go in a basic authorization
    /// header).
    pub fn login_request(&self) -> (r: Request)
        ensures
            r@ == request_to(Method::Post, url_of(self.url@, authenticate_path())),
    {
        Request::new(Method::Post, self.url.as_str(), &chars_of("/zosmf/services/authenticate"))
    }

    /// Takes the answer to a login: the tokens of its `Set-Cookie` headers,
    /// in ascending order. The client keeps the first of them, or none when
    /// there is none.
    pub fn login(&mut self, set_cookies: &Vec<Vec<u8>>) -> (r: Vec<AuthToken>)
        ensures
            tokens_sorted(tokens_view(r@)),
            tokens_view(r@).to_multiset() =~= login_tokens(bytes_view(set_cookies@)).to_multiset(),
            token_view(final(self).token) == (if r@.len() > 0 {
                Some(r@[0]@)
            } else {
                None::<AuthTokenView>
            }),
            final(self).url == old(self).url,
    {
        let ghost values = bytes_view(set_cookies@);
        let mut texts: Vec<String> = Vec::new();
        let mut i: usize = 0;
        proof {
            assert(values.take(0) =~= Seq::<Seq<u8>>::empty());
            assert(strings_view(texts@) =~= Seq::<Seq<char>>::empty());
        }
        while i < set_cookies.len()
            invariant
                0 <= i <= set_cookies.len(),
                values == bytes_view(set_cookies@),
                strings_view(texts@) == header_texts(values.take(i as int)),
            decreases set_cookies.len() - i,
        {
            proof {
                assert(values.take(i + 1).drop_last() =~= values.take(i as int));
                assert(values.take(i + 1).last() == set_cookies@[i as int]@);
            }
            match header_value_text(&set_cookies[i]) {
                Ok(t) => {
                    let ghost prev = texts@;
                    let ghost tv = t@;
                    texts.push(t);
                    proof {
                        assert(strings_view(texts@) =~= strings_view(prev).push(tv));
                    }
                },
                Err(_) => {},
            }
            i = i + 1;
        }
        proof {
            assert(values.take(set_cookies.len() as int) =~= values);
        }
        let tokens = tokens_from_cookies(&texts);
        self.token = if tokens.len() > 0 {
            Some(tokens[0].duplicate())
        } else {
            None
        };
        tokens
    }

    /// The request that logs out.
    pub fn logout_request(&self) -> (r: Request)
        ensures
            r@ == request_to(Method::Delete, url_of(self.url@, authenticate_path())),
    {
        Request::new(Method::Delete, self.url.as_str(), &chars_of("/zosmf/services/authenticate"))
    }

    /// Takes the answer to a logout: the client keeps no token.
    pub fn logout(&mut self)
        ensures
            final(self).token is None,
            final(self).url == old(self).url,
    {
        self.token = None;
    }

    /// The header that presents the client's token, if it has one.
    pub fn auth_header(&self) -> (r: Option<(String, String)>)
        ensures
            match r {
                Some(h) => self.token matches Some(t) && (h.0@, h.1@) == token_header(t@),
                None => self.token is None,
            },
    {
        match &self.token {
            Some(t) => Some(t.header()),
            None => None,
        }
    }

    /// The requests on files.
    pub fn files(&self) -> (r: FilesClient)
        ensures
            r.base_url == self.url,
    {
        FilesClient::new(self.url.clone())
    }

    /// The requests on jobs.
    pub fn jobs(&self) -> (r: JobsClient)
        ensures
            r.base_url == self.url,
    {
        JobsClient::new(self.url.clone())
    }

    /// The requests on system variables.
    pub fn system_variables(&self) -> (r: SystemVariablesClient)
        ensures
            r.base_url == self.url,
    {
        SystemVariablesClient::new(self.url.clone())
    }

    /// The requests on variables.
    pub fn variables(&self) -> (r: VariablesClient)
        ensures
            r.base_url == self.url,
    {
        VariablesClient::new(self.url.clone())
    }

    /// The requests on workflows.
    pub fn workflows(&self) -> (r: WorkflowsClient)
        ensures
            r.base_url == self.url,
    {
        WorkflowsClient::new(self.url.clone())
    }

    /// The request for information about z/OSMF.
    pub fn info(&self) -> (r: InfoBuilder)
        ensures
            r.base_url == self.url,
    {
        InfoBuilder::new(self.url.clone())
    }
}

} // verus!
