//! Listing the symbols of the local system.

use vstd::prelude::*;

use crate::auth::strings_view;
use crate::request::{request_to, url_of, with_queries, Method, Request, RequestView};
use crate::system_variables::list::append_names;
use crate::text::chars_of;

verus! {

/// A symbol of the local system.
#[derive(Clone, Debug, PartialEq, Eq, Hash)]
pub struct Symbol {
    pub name: String,
    pub value: String,
}

impl Symbol {
    /// The symbol's name.
    pub fn name(&self) -> (r: &str)
        ensures
            r@ == self.name@,
    {
        self.name.as_str()
    }

    /// The symbol's value.
    pub fn value(&self) -> (r: &str)
        ensures
            r@ == self.value@,
    {
        self.value.as_str()
    }
}

/// The symbols of the local system.
#[derive(Clone, Debug, PartialEq, Eq, Hash)]
pub struct Symbols {
    pub inner: Vec<Symbol>,
}

impl Symbols {
    /// The symbols, in the order of the answer.
    pub fn items(&self) -> (r: &Vec<Symbol>)
        ensures
            r == &self.inner,
    {
        &self.inner
    }
}

/// The path of the symbols of the local system.
pub open spec fn symbols_path() -> Seq<char> {
    "/zosmf/variables/rest/1.0/systems/local?source=symbol"@
}

/// A request that lists the symbols of the local system.
#[derive(Clone, Debug)]
pub struct SymbolsBuilder {
    pub base_url: String,
    pub names: Vec<String>,
}

impl SymbolsBuilder {
    /// The builder as it is first made.
    pub open spec fn is_new(self, base_url: Seq<char>) -> bool {
        &&& self.base_url@ == base_url
        &&& self.names@.len() == 0
    }

    /// A builder that lists every symbol.
    pub fn new(base_url: String) -> (r: SymbolsBuilder)
        ensures
            r.is_new(base_url@),
    {
        SymbolsBuilder { base_url, names: Vec::new() }
    }

    /// Asks for one more symbol.
    pub fn name(self, value: &str) -> (r: SymbolsBuilder)
        ensures
            strings_view(r.names@) == strings_view(self.names@).push(value@),
            r.base_url == self.base_url,
    {
        let mut one: Vec<String> = Vec::new();
        one.push(String::from_str(value));
        let names = append_names(Some(self.names), &one);
        proof {
            assert(strings_view(one@) =~= seq![value@]);
        }
        SymbolsBuilder { base_url: self.base_url, names }
    }

    /// Asks for more symbols.
    pub fn names(self, value: &Vec<String>) -> (r: SymbolsBuilder)
        ensures
            strings_view(r.names@) == strings_view(self.names@) + strings_view(value@),
            r.base_url == self.base_url,
    {
        let names = append_names(Some(self.names), value);
        SymbolsBuilder { base_url: self.base_url, names }
    }

    /// The request that this builder describes.
    pub open spec fn spec_request(&self) -> RequestView {
        with_queries(
            request_to(Method::Get, url_of(self.base_url@, symbols_path())),
            "var-name"@,
            strings_view(self.names@),
        )
    }

    /// The request: `GET` on the local system's symbols, with one `var-name`
    /// parameter for each name asked for.
    pub fn get_request(&self) -> (r: Request)
        ensures
            r@ == self.spec_request(),
    {
        let path = chars_of("/zosmf/variables/rest/1.0/systems/local?source=symbol");
        let mut r = Request::new(Method::Get, self.base_url.as_str(), &path);
        r.add_queries("var-name", &self.names);
        r
    }
}

} // verus!
