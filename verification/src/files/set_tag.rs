//! Setting the tag of a file.

use vstd::prelude::*;

use crate::files::{fs_path, write_fs_path, FileTagLinks, FileTagType};
use crate::request::{
    jstr, member_opt, request_to, str_json, url_of, Json, JsonValue, Members, Method, Request,
    RequestView,
};

verus! {

/// A request that sets the tag of a file.
#[derive(Clone, Debug)]
pub struct FileSetTagBuilder {
    pub base_url: String,
    pub path: String,
    pub tag_type: Option<FileTagType>,
    pub code_set: Option<String>,
    pub links: Option<FileTagLinks>,
    pub recursive: bool,
}

impl FileSetTagBuilder {
    /// The builder as it is first made.
    pub open spec fn is_new(self, base_url: Seq<char>, path: Seq<char>) -> bool {
        &&& self.base_url@ == base_url
        &&& self.path@ == path
        &&& self.tag_type is None
        &&& self.code_set is None
        &&& self.links is None
        &&& self.recursive == false
    }

    /// A builder that tags the file at `path`.
    pub fn new(base_url: String, path: &str) -> (r: FileSetTagBuilder)
        ensures
            r.is_new(base_url@, path@),
    {
        FileSetTagBuilder {
            base_url,
            path: String::from_str(path),
            tag_type: None,
            code_set: None,
            links: None,
            recursive: false,
        }
    }

    /// Sets the kind of data.
    pub fn tag_type(self, value: FileTagType) -> (r: FileSetTagBuilder)
        ensures
            r == (FileSetTagBuilder { tag_type: Some(value), ..self }),
    {
        FileSetTagBuilder { tag_type: Some(value), ..self }
    }

    /// Sets the code set.
    pub fn code_set(self, value: &str) -> (r: FileSetTagBuilder)
        ensures
            r.code_set matches Some(s) && s@ == value@,
            r == (FileSetTagBuilder { code_set: r.code_set, ..self }),
    {
        FileSetTagBuilder { code_set: Some(String::from_str(value)), ..self }
    }

    /// Sets how symbolic links are treated.
    pub fn links(self, value: FileTagLinks) -> (r: FileSetTagBuilder)
        ensures
            r == (FileSetTagBuilder { links: Some(value), ..self }),
    {
        FileSetTagBuilder { links: Some(value), ..self }
    }

    /// Tags a directory's contents too.
    pub fn recursive(self, value: bool) -> (r: FileSetTagBuilder)
        ensures
            r == (FileSetTagBuilder { recursive: value, ..self }),
    {
        FileSetTagBuilder { recursive: value, ..self }
    }

    /// The members of the body, in order.
    pub open spec fn members(&self) -> Seq<(Seq<char>, Json)> {
        seq![
            ("request"@, jstr("chtag"@)),
            ("action"@, jstr("set"@)),
        ] + member_opt(
            "type"@,
            match self.tag_type {
                Some(e) => Some(jstr(e.text())),
                None => None,
            },
        ) + member_opt("codeset"@, str_json(self.code_set)) + member_opt(
            "links"@,
            match self.links {
                Some(e) => Some(jstr(e.text())),
                None => None,
            },
        ) + seq![("recursive"@, Json::Bool(self.recursive))]
    }

    /// The request that this builder describes.
    pub open spec fn spec_request(&self) -> RequestView {
        request_to(Method::Put, url_of(self.base_url@, fs_path(self.path@))).with_json(
            Json::Object(self.members()),
        )
    }

    /// The request: `PUT` on the path with a `chtag` set body.
    pub fn get_request(&self) -> (r: Request)
        ensures
            r@ == self.spec_request(),
    {
        let path = write_fs_path(self.path.as_str());
        let mut r = Request::new(Method::Put, self.base_url.as_str(), &path);
        let mut m = Members::new();
        m.add_str("request", "chtag");
        m.add_str("action", "set");
        m.add_opt(
            "type",
            match self.tag_type {
                Some(e) => Some(JsonValue::Str(String::from_str(e.as_str()))),
                None => None,
            },
        );
        m.add_opt_str("codeset", &self.code_set);
        m.add_opt(
            "links",
            match self.links {
                Some(e) => Some(JsonValue::Str(String::from_str(e.as_str()))),
                None => None,
            },
        );
        m.add_bool("recursive", self.recursive);
        proof {
            assert(m@ =~= self.members());
        }
        r.set_json(m.into_object());
        r
    }
}

} // verus!
