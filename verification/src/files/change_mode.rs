//! Changing the mode of a file.

use vstd::prelude::*;

use crate::files::{fs_path, write_fs_path};
use crate::request::{
    jstr, member_opt, request_to, url_of, Json, JsonValue, Members, Method, Request, RequestView,
};

verus! {

/// How a change of mode treats symbolic links.
#[derive(Clone, Copy, Debug, PartialEq, Eq, Structural, Hash)]
pub enum FileModeLinks {
    Follow,
    Suppress,
}

impl FileModeLinks {
    /// The name of this value in requests and answers.
    pub open spec fn text(self) -> Seq<char> {
        match self {
            FileModeLinks::Follow => "follow"@,
            FileModeLinks::Suppress => "suppress"@,
        }
    }

    /// The name of this value in requests and answers.
    pub fn as_str(&self) -> (r: &'static str)
        ensures
            r@ == self.text(),
    {
        match self {
            FileModeLinks::Follow => "follow",
            FileModeLinks::Suppress => "suppress",
        }
    }
}

impl Default for FileModeLinks {
    fn default() -> (r: FileModeLinks)
        ensures
            r == FileModeLinks::Follow,
    {
        FileModeLinks::Follow
    }
}

/// A request that changes the mode of a file (`chmod`).
#[derive(Clone, Debug)]
pub struct FileChangeModeBuilder {
    pub base_url: String,
    pub path: String,
    pub mode: String,
    pub links: Option<FileModeLinks>,
    pub recursive: bool,
}

impl FileChangeModeBuilder {
    /// The builder as it is first made.
    pub open spec fn is_new(self, base_url: Seq<char>, path: Seq<char>, mode: Seq<char>) -> bool {
        &&& self.base_url@ == base_url
        &&& self.path@ == path
        &&& self.mode@ == mode
        &&& self.links is None
        &&& self.recursive == false
    }

    /// A builder that gives the file at `path` the mode `mode`.
    pub fn new(base_url: String, path: &str, mode: &str) -> (r: FileChangeModeBuilder)
        ensures
            r.is_new(base_url@, path@, mode@),
    {
        FileChangeModeBuilder {
            base_url,
            path: String::from_str(path),
            mode: String::from_str(mode),
            links: None,
            recursive: false,
        }
    }

    /// Sets how symbolic links are treated.
    pub fn links(self, value: FileModeLinks) -> (r: FileChangeModeBuilder)
        ensures
            r == (FileChangeModeBuilder { links: Some(value), ..self }),
    {
        FileChangeModeBuilder { links: Some(value), ..self }
    }

    /// Changes the mode of a directory's contents too.
    pub fn recursive(self, value: bool) -> (r: FileChangeModeBuilder)
        ensures
            r == (FileChangeModeBuilder { recursive: value, ..self }),
    {
        FileChangeModeBuilder { recursive: value, ..self }
    }

    /// The members of the body, in order.
    pub open spec fn members(&self) -> Seq<(Seq<char>, Json)> {
        seq![
            ("request"@, jstr("chmod"@)),
            ("mode"@, jstr(self.mode@)),
        ] + member_opt(
            "links"@,
            match self.links {
                Some(e) => Some(jstr(e.text())),
                None => None,
            },
        ) + seq![("recursive"@, Json::Bool(self.recursive))]
    }

    /// The request that this builder describes.
    pub open spec fn spec_request(&self) -> RequestView {
        request_to(Method::Put, url_of(self.base_url@, fs_path(self.path@))).with_json(
            Json::Object(self.members()),
        )
    }

    /// The request: `PUT` on the file with a `chmod` body.
    pub fn get_request(&self) -> (r: Request)
        ensures
            r@ == self.spec_request(),
    {
        let path = write_fs_path(self.path.as_str());
        let mut r = Request::new(Method::Put, self.base_url.as_str(), &path);
        let mut m = Members::new();
        m.add_str("request", "chmod");
        m.add_str("mode", self.mode.as_str());
        m.add_opt(
            "links",
            match self.links {
                Some(e) => Some(JsonValue::Str(String::from_str(e.as_str()))),
                None => None,
            },
        );
        m.add_bool("recursive", self.recursive);
        proof {
            assert(m@ =~= self.members());
        }
        r.set_json(m.into_object());
        r
    }
}

} // verus!
