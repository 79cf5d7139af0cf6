//! Changing the owner of a file.

use vstd::prelude::*;

use crate::files::{fs_path, write_fs_path};
use crate::request::{
    jstr, member_opt, request_to, str_json, url_of, Json, JsonValue, Members, Method, Request,
    RequestView,
};

verus! {

/// How a change of owner treats symbolic links.
#[derive(Clone, Copy, Debug, PartialEq, Eq, Structural, Hash)]
pub enum ChangeOwnerLinks {
    Change,
    Follow,
}

impl ChangeOwnerLinks {
    /// The name of this value in requests and answers.
    pub open spec fn text(self) -> Seq<char> {
        match self {
            ChangeOwnerLinks::Change => "change"@,
            ChangeOwnerLinks::Follow => "follow"@,
        }
    }

    /// The name of this value in requests and answers.
    pub fn as_str(&self) -> (r: &'static str)
        ensures
            r@ == self.text(),
    {
        match self {
            ChangeOwnerLinks::Change => "change",
            ChangeOwnerLinks::Follow => "follow",
        }
    }
}

impl Default for ChangeOwnerLinks {
    fn default() -> (r: ChangeOwnerLinks)
        ensures
            r == ChangeOwnerLinks::Follow,
    {
        ChangeOwnerLinks::Follow
    }
}

/// A request that changes the owner of a file (`chown`).
#[derive(Clone, Debug)]
pub struct FileChangeOwnerBuilder {
    pub base_url: String,
    pub path: String,
    pub owner: String,
    pub group: Option<String>,
    pub links: Option<ChangeOwnerLinks>,
    pub recursive: bool,
}

impl FileChangeOwnerBuilder {
    /// The builder as it is first made.
    pub open spec fn is_new(self, base_url: Seq<char>, path: Seq<char>, owner: Seq<char>) -> bool {
        &&& self.base_url@ == base_url
        &&& self.path@ == path
        &&& self.owner@ == owner
        &&& self.group is None
        &&& self.links is None
        &&& self.recursive == false
    }

    /// A builder that gives the file at `path` the owner `owner`.
    pub fn new(base_url: String, path: &str, owner: &str) -> (r: FileChangeOwnerBuilder)
        ensures
            r.is_new(base_url@, path@, owner@),
    {
        FileChangeOwnerBuilder {
            base_url,
            path: String::from_str(path),
            owner: String::from_str(owner),
            group: None,
            links: None,
            recursive: false,
        }
    }

    /// Sets the group too.
    pub fn group(self, value: &str) -> (r: FileChangeOwnerBuilder)
        ensures
            r.group matches Some(s) && s@ == value@,
            r == (FileChangeOwnerBuilder { group: r.group, ..self }),
    {
        FileChangeOwnerBuilder { group: Some(String::from_str(value)), ..self }
    }

    /// Sets how symbolic links are treated.
    pub fn links(self, value: ChangeOwnerLinks) -> (r: FileChangeOwnerBuilder)
        ensures
            r == (FileChangeOwnerBuilder { links: Some(value), ..self }),
    {
        FileChangeOwnerBuilder { links: Some(value), ..self }
    }

    /// Changes the owner of a directory's contents too.
    pub fn recursive(self, value: bool) -> (r: FileChangeOwnerBuilder)
        ensures
            r == (FileChangeOwnerBuilder { recursive: value, ..self }),
    {
        FileChangeOwnerBuilder { recursive: value, ..self }
    }

    /// The members of the body, in order.
    pub open spec fn members(&self) -> Seq<(Seq<char>, Json)> {
        seq![
            ("request"@, jstr("chown"@)),
            ("owner"@, jstr(self.owner@)),
        ] + member_opt("group"@, str_json(self.group)) + member_opt(
            "links"@,
            match self.links {
                Some(e) => Some(jstr(e.text())),
                None => None,
            },
        ) + seq![("recursive"@, Json::Bool(self.recursive))]
    }

    /// The request that this builder describes.
    pub open spec fn spec_request(&self) -> RequestView {
        request_to(Method::Put, url_of(self.base_url@, fs_path(self.path@))).with_json(
            Json::Object(self.members()),
        )
    }

    /// The request: `PUT` on the file with a `chown` body.
    pub fn get_request(&self) -> (r: Request)
        ensures
            r@ == self.spec_request(),
    {
        let path = write_fs_path(self.path.as_str());
        let mut r = Request::new(Method::Put, self.base_url.as_str(), &path);
        let mut m = Members::new();
        m.add_str("request", "chown");
        m.add_str("owner", self.owner.as_str());
        m.add_opt_str("group", &self.group);
        m.add_opt(
            "links",
            match self.links {
                Some(e) => Some(JsonValue::Str(String::from_str(e.as_str()))),
                None => None,
            },
        );
        m.add_bool("recursive", self.recursive);
        proof {
            assert(m@ =~= self.members());
        }
        r.set_json(m.into_object());
        r
    }
}

} // verus!
