//! Listing system symbols.

use vstd::prelude::*;

use crate::auth::strings_view;
use crate::error::{Error, ErrorView};
use crate::request::{request_result, request_to, url_of, Method, Request, RequestView};
use crate::system_variables::list::{append_names, names_of};
use crate::text::chars_of;

verus! {

/// A system symbol.
#[derive(Clone, Debug, PartialEq, Eq, Hash)]
pub struct SystemSymbol {
    pub name: String,
    pub value: String,
}

impl SystemSymbol {
    /// The symbol's name.
    pub fn name(&self) -> (r: &str)
        ensures
            r@ == self.name@,
    {
        self.name.as_str()
    }

    /// The symbol's value.
    pub fn value(&self) -> (r: &str)
        ensures
            r@ == self.value@,
    {
        self.value.as_str()
    }
}

/// The symbols of the local system.
#[derive(Clone, Debug, PartialEq, Eq, Hash)]
pub struct SystemSymbolList {
    pub inner: Vec<SystemSymbol>,
}

impl SystemSymbolList {
    /// The symbols, in the order of the answer.
    pub fn items(&self) -> (r: &Vec<SystemSymbol>)
        ensures
            r == &self.inner,
    {
        &self.inner
    }
}

/// The path of the symbols of the local system.
pub open spec fn symbols_path() -> Seq<char> {
    "/zosmf/variables/rest/1.0/systems/local?source=symbol"@
}

/// A request that lists the symbols of the local system.
#[derive(Clone, Debug)]
pub struct SystemSymbolListBuilder {
    pub base_url: String,
    pub names: Option<Vec<String>>,
}

impl SystemSymbolListBuilder {
    /// The builder as it is first made.
    pub open spec fn is_new(self, base_url: Seq<char>) -> bool {
        &&& self.base_url@ == base_url
        &&& self.names is None
    }

    /// A builder that lists every symbol.
    pub fn new(base_url: String) -> (r: SystemSymbolListBuilder)
        ensures
            r.is_new(base_url@),
    {
        SystemSymbolListBuilder { base_url, names: None }
    }

    /// Asks for one more symbol.
    pub fn name(self, value: &str) -> (r: SystemSymbolListBuilder)
        ensures
            names_of(r.names) == names_of(self.names).push(value@),
            r.names is Some,
            r.base_url == self.base_url,
    {
        let mut one: Vec<String> = Vec::new();
        one.push(String::from_str(value));
        let names = append_names(self.names, &one);
        proof {
            assert(strings_view(one@) =~= seq![value@]);
        }
        SystemSymbolListBuilder { base_url: self.base_url, names: Some(names) }
    }

    /// Asks for more symbols.
    pub fn names(self, value: &Vec<String>) -> (r: SystemSymbolListBuilder)
        ensures
            names_of(r.names) == names_of(self.names) + strings_view(value@),
            r.names is Some,
            r.base_url == self.base_url,
    {
        let names = append_names(self.names, value);
        SystemSymbolListBuilder { base_url: self.base_url, names: Some(names) }
    }

    /// The request that this builder describes: `GET` on the local system's
    /// symbols. Names, once any were asked for (even none, through an empty
    /// list), are handed on as one query value that holds a list, which
    /// cannot be written into a URL, so no request is made.
    pub open spec fn spec_request(&self) -> Result<RequestView, ErrorView> {
        match self.names {
            Some(_) => Err(ErrorView::Query("unsupported value"@)),
            None => Ok(request_to(Method::Get, url_of(self.base_url@, symbols_path()))),
        }
    }

    /// The request, or the error that tells that the names asked for cannot
    /// be written as query parameters.
    pub fn get_request(&self) -> (r: Result<Request, Error>)
        ensures
            request_result(r) == self.spec_request(),
    {
        if self.names.is_some() {
            return Err(Error::Query(String::from_str("unsupported value")));
        }
        let path = chars_of("/zosmf/variables/rest/1.0/systems/local?source=symbol");
        Ok(Request::new(Method::Get, self.base_url.as_str(), &path))
    }
}

} // verus!
