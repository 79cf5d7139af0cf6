//! Removing the tags of files, with every option optional.

use vstd::prelude::*;

use crate::files::{fs_path, write_fs_path, FileTagsLinks};
use crate::request::{
    jstr, request_to, url_of, Json, JsonValue, Members, Method, Request, RequestView,
};

verus! {

/// A request that removes the tags of files.
#[derive(Clone, Debug)]
pub struct FileTagsRemoveBuilder {
    pub base_url: String,
    pub path: String,
    pub links: Option<FileTagsLinks>,
    pub recursive: Option<bool>,
}

impl FileTagsRemoveBuilder {
    /// The builder as it is first made.
    pub open spec fn is_new(self, base_url: Seq<char>, path: Seq<char>) -> bool {
        &&& self.base_url@ == base_url
        &&& self.path@ == path
        &&& self.links is None
        &&& self.recursive is None
    }

    /// A builder that removes the tags at `path`.
    pub fn new(base_url: String, path: &str) -> (r: FileTagsRemoveBuilder)
        ensures
            r.is_new(base_url@, path@),
    {
        FileTagsRemoveBuilder {
            base_url,
            path: String::from_str(path),
            links: None,
            recursive: None,
        }
    }

    /// Sets how symbolic links are treated.
    pub fn links(self, value: FileTagsLinks) -> (r: FileTagsRemoveBuilder)
        ensures
            r == (FileTagsRemoveBuilder { links: Some(value), ..self }),
    {
        FileTagsRemoveBuilder { links: Some(value), ..self }
    }

    /// Removes the tags of a directory's contents too.
    pub fn recursive(self, value: bool) -> (r: FileTagsRemoveBuilder)
        ensures
            r == (FileTagsRemoveBuilder { recursive: Some(value), ..self }),
    {
        FileTagsRemoveBuilder { recursive: Some(value), ..self }
    }

    /// The members of the body, in order.
    pub open spec fn members(&self) -> Seq<(Seq<char>, Json)> {
        seq![
            ("request"@, jstr("chtag"@)),
            ("action"@, jstr("remove"@)),
            (
                "links"@,
                match self.links {
                    Some(e) => jstr(e.text()),
                    None => Json::Null,
                },
            ),
            ("recursive"@, Json::Bool(self.recursive == Some(true))),
        ]
    }

    /// The request that this builder describes.
    pub open spec fn spec_request(&self) -> RequestView {
        request_to(Method::Put, url_of(self.base_url@, fs_path(self.path@))).with_json(
            Json::Object(self.members()),
        )
    }

    /// The request: `PUT` on the path with a `chtag` remove body.
    pub fn get_request(&self) -> (r: Request)
        ensures
            r@ == self.spec_request(),
    {
        let path = write_fs_path(self.path.as_str());
        let mut r = Request::new(Method::Put, self.base_url.as_str(), &path);
        let mut m = Members::new();
        m.add_str("request", "chtag");
        m.add_str("action", "remove");
        m.add(
            "links",
            match self.links {
                Some(e) => JsonValue::Str(String::from_str(e.as_str())),
                None => JsonValue::Null,
            },
        );
        m.add_bool("recursive", self.recursive == Some(true));
        proof {
            assert(m@ =~= self.members());
        }
        r.set_json(m.into_object());
        r
    }
}

} // verus!
