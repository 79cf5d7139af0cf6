//! Linking files.

use vstd::prelude::*;

use crate::files::{fs_path, write_fs_path};
use crate::request::{jstr, request_to, url_of, Json, Members, Method, Request, RequestView};

verus! {

/// The kind of a link.
#[derive(Clone, Copy, Debug, PartialEq, Eq, Structural, Hash)]
pub enum LinkType {
    External,
    Symbol,
}

impl LinkType {
    /// The name of this value in requests and answers.
    pub open spec fn text(self) -> Seq<char> {
        match self {
            LinkType::External => "external"@,
            LinkType::Symbol => "symbol"@,
        }
    }

    /// The name of this value in requests and answers.
    pub fn as_str(&self) -> (r: &'static str)
        ensures
            r@ == self.text(),
    {
        match self {
            LinkType::External => "external",
            LinkType::Symbol => "symbol",
        }
    }
}

/// A request that makes a link.
#[derive(Clone, Debug)]
pub struct LinkBuilder {
    pub base_url: String,
    pub source_path: String,
    pub target_path: String,
    pub link_type: LinkType,
    pub recursive: Option<bool>,
    pub force: Option<bool>,
}

impl LinkBuilder {
    /// The builder as it is first made.
    pub open spec fn is_new(
        self,
        base_url: Seq<char>,
        source_path: Seq<char>,
        target_path: Seq<char>,
        link_type: LinkType,
    ) -> bool {
        &&& self.base_url@ == base_url
        &&& self.source_path@ == source_path
        &&& self.target_path@ == target_path
        &&& self.link_type == link_type
        &&& self.recursive is None
        &&& self.force is None
    }

    /// A builder that links `target_path` to `source_path`.
    pub fn new(
        base_url: String,
        source_path: &str,
        target_path: &str,
        link_type: LinkType,
    ) -> (r: LinkBuilder)
        ensures
            r.is_new(base_url@, source_path@, target_path@, link_type),
    {
        LinkBuilder {
            base_url,
            source_path: String::from_str(source_path),
            target_path: String::from_str(target_path),
            link_type: link_type,
            recursive: None,
            force: None,
        }
    }

    /// Links the contents of a directory too.
    pub fn recursive(self, value: bool) -> (r: LinkBuilder)
        ensures
            r == (LinkBuilder { recursive: Some(value), ..self }),
    {
        LinkBuilder { recursive: Some(value), ..self }
    }

    /// Replaces what stands at the target.
    pub fn force(self, value: bool) -> (r: LinkBuilder)
        ensures
            r == (LinkBuilder { force: Some(value), ..self }),
    {
        LinkBuilder { force: Some(value), ..self }
    }

    /// The members of the body, in order.
    pub open spec fn members(&self) -> Seq<(Seq<char>, Json)> {
        seq![
            ("request"@, jstr("link"@)),
            ("from"@, jstr(self.source_path@)),
            ("type"@, jstr(self.link_type.text())),
            ("recursive"@, Json::Bool(self.recursive == Some(true))),
            ("force"@, Json::Bool(self.force == Some(true))),
        ]
    }

    /// The request that this builder describes.
    pub open spec fn spec_request(&self) -> RequestView {
        request_to(Method::Put, url_of(self.base_url@, fs_path(self.target_path@))).with_json(
            Json::Object(self.members()),
        )
    }

    /// The request: `PUT` on the target with a `link` body.
    pub fn get_request(&self) -> (r: Request)
        ensures
            r@ == self.spec_request(),
    {
        let path = write_fs_path(self.target_path.as_str());
        let mut r = Request::new(Method::Put, self.base_url.as_str(), &path);
        let mut m = Members::new();
        m.add_str("request", "link");
        m.add_str("from", self.source_path.as_str());
        m.add_str("type", self.link_type.as_str());
        m.add_bool("recursive", self.recursive == Some(true));
        m.add_bool("force", self.force == Some(true));
        proof {
            assert(m@ =~= self.members());
        }
        r.set_json(m.into_object());
        r
    }
}

} // verus!
