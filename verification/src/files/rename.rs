//! Moving a file.

use vstd::prelude::*;

use crate::files::{fs_path, write_fs_path};
use crate::request::{jstr, request_to, url_of, Json, Members, Method, Request, RequestView};

verus! {

/// A request that moves a file.
#[derive(Clone, Debug)]
pub struct FileRenameBuilder {
    pub base_url: String,
    pub from_path: String,
    pub to_path: String,
    pub overwrite: bool,
}

impl FileRenameBuilder {
    /// The builder as it is first made.
    pub open spec fn is_new(
        self,
        base_url: Seq<char>,
        from_path: Seq<char>,
        to_path: Seq<char>,
    ) -> bool {
        &&& self.base_url@ == base_url
        &&& self.from_path@ == from_path
        &&& self.to_path@ == to_path
        &&& self.overwrite == false
    }

    /// A builder that moves `from_path` to `to_path`.
    pub fn new(base_url: String, from_path: &str, to_path: &str) -> (r: FileRenameBuilder)
        ensures
            r.is_new(base_url@, from_path@, to_path@),
    {
        FileRenameBuilder {
            base_url,
            from_path: String::from_str(from_path),
            to_path: String::from_str(to_path),
            overwrite: false,
        }
    }

    /// Replaces what stands at the target.
    pub fn overwrite(self, value: bool) -> (r: FileRenameBuilder)
        ensures
            r == (FileRenameBuilder { overwrite: value, ..self }),
    {
        FileRenameBuilder { overwrite: value, ..self }
    }

    /// The members of the body, in order.
    pub open spec fn members(&self) -> Seq<(Seq<char>, Json)> {
        seq![
            ("request"@, jstr("move"@)),
            ("from"@, jstr(self.from_path@)),
            ("overwrite"@, Json::Bool(self.overwrite)),
        ]
    }

    /// The request that this builder describes.
    pub open spec fn spec_request(&self) -> RequestView {
        request_to(Method::Put, url_of(self.base_url@, fs_path(self.to_path@))).with_json(
            Json::Object(self.members()),
        )
    }

    /// The request: `PUT` on the target with a `move` body.
    pub fn get_request(&self) -> (r: Request)
        ensures
            r@ == self.spec_request(),
    {
        let path = write_fs_path(self.to_path.as_str());
        let mut r = Request::new(Method::Put, self.base_url.as_str(), &path);
        let mut m = Members::new();
        m.add_str("request", "move");
        m.add_str("from", self.from_path.as_str());
        m.add_bool("overwrite", self.overwrite);
        proof {
            assert(m@ =~= self.members());
        }
        r.set_json(m.into_object());
        r
    }
}

} // verus!
