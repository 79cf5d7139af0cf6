//! Changing the owner of a file, with every option optional.

use vstd::prelude::*;

use crate::files::{fs_path, write_fs_path};
use crate::request::{
    jstr, member_opt, request_to, str_json, url_of, Json, JsonValue, Members, Method, Request,
    RequestView,
};

verus! {

/// How a change of owner treats symbolic links.
#[derive(Clone, Copy, Debug, PartialEq, Eq, Structural, Hash)]
pub enum Links {
    Change,
    Follow,
}

impl Links {
    /// The name of this value in requests and answers.
    pub open spec fn text(self) -> Seq<char> {
        match self {
            Links::Change => "change"@,
            Links::Follow => "follow"@,
        }
    }

    /// The name of this value in requests and answers.
    pub fn as_str(&self) -> (r: &'static str)
        ensures
            r@ == self.text(),
    {
        match self {
            Links::Change => "change",
            Links::Follow => "follow",
        }
    }
}

/// A request that changes the owner of a file (`chown`).
#[derive(Clone, Debug)]
pub struct ChangeOwnerBuilder {
    pub base_url: String,
    pub path: String,
    pub owner: String,
    pub group: Option<String>,
    pub links: Option<Links>,
    pub recursive: Option<bool>,
}

impl ChangeOwnerBuilder {
    /// The builder as it is first made.
    pub open spec fn is_new(self, base_url: Seq<char>, path: Seq<char>, owner: Seq<char>) -> bool {
        &&& self.base_url@ == base_url
        &&& self.path@ == path
        &&& self.owner@ == owner
        &&& self.group is None
        &&& self.links is None
        &&& self.recursive is None
    }

    /// A builder that gives the file at `path` the owner `owner`.
    pub fn new(base_url: String, path: &str, owner: &str) -> (r: ChangeOwnerBuilder)
        ensures
            r.is_new(base_url@, path@, owner@),
    {
        ChangeOwnerBuilder {
            base_url,
            path: String::from_str(path),
            owner: String::from_str(owner),
            group: None,
            links: None,
            recursive: None,
        }
    }

    /// Sets the group too.
    pub fn group(self, value: &str) -> (r: ChangeOwnerBuilder)
        ensures
            r.group matches Some(s) && s@ == value@,
            r == (ChangeOwnerBuilder { group: r.group, ..self }),
    {
        ChangeOwnerBuilder { group: Some(String::from_str(value)), ..self }
    }

    /// Sets how symbolic links are treated.
    pub fn links(self, value: Links) -> (r: ChangeOwnerBuilder)
        ensures
            r == (ChangeOwnerBuilder { links: Some(value), ..self }),
    {
        ChangeOwnerBuilder { links: Some(value), ..self }
    }

    /// Changes the owner of a directory's contents too.
    pub fn recursive(self, value: bool) -> (r: ChangeOwnerBuilder)
        ensures
            r == (ChangeOwnerBuilder { recursive: Some(value), ..self }),
    {
        ChangeOwnerBuilder { recursive: Some(value), ..self }
    }

    /// The members of the body, in order.
    pub open spec fn members(&self) -> Seq<(Seq<char>, Json)> {
        seq![
            ("request"@, jstr("chown"@)),
            ("owner"@, jstr(self.owner@)),
        ] + member_opt("group"@, str_json(self.group)) + member_opt(
            "links"@,
            match self.links {
                Some(e) => Some(jstr(e.text())),
                None => None,
            },
        ) + seq![("recursive"@, Json::Bool(self.recursive == Some(true)))]
    }

    /// The request that this builder describes.
    pub open spec fn spec_request(&self) -> RequestView {
        request_to(Method::Put, url_of(self.base_url@, fs_path(self.path@))).with_json(
            Json::Object(self.members()),
        )
    }

    /// The request: `PUT` on the file with a `chown` body.
    pub fn get_request(&self) -> (r: Request)
        ensures
            r@ == self.spec_request(),
    {
        let path = write_fs_path(self.path.as_str());
        let mut r = Request::new(Method::Put, self.base_url.as_str(), &path);
        let mut m = Members::new();
        m.add_str("request", "chown");
        m.add_str("owner", self.owner.as_str());
        m.add_opt_str("group", &self.group);
        m.add_opt(
            "links",
            match self.links {
                Some(e) => Some(JsonValue::Str(String::from_str(e.as_str()))),
                None => None,
            },
        );
        m.add_bool("recursive", self.recursive == Some(true));
        proof {
            assert(m@ =~= self.members());
        }
        r.set_json(m.into_object());
        r
    }
}

} // verus!
