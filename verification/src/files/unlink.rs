//! Removing a link.

use vstd::prelude::*;

use crate::files::{fs_path, write_fs_path};
use crate::request::{jstr, request_to, url_of, Json, Members, Method, Request, RequestView};

verus! {

/// The answer to an unlink, which carries nothing.
#[derive(Clone, Copy, Debug)]
pub struct FileUnlink {}

/// A request that removes a link.
#[derive(Clone, Debug)]
pub struct FileUnlinkBuilder {
    pub base_url: String,
    pub path: String,
}

impl FileUnlinkBuilder {
    /// The builder as it is first made.
    pub open spec fn is_new(self, base_url: Seq<char>, path: Seq<char>) -> bool {
        &&& self.base_url@ == base_url
        &&& self.path@ == path
    }

    /// A builder that removes the link at `path`.
    pub fn new(base_url: String, path: &str) -> (r: FileUnlinkBuilder)
        ensures
            r.is_new(base_url@, path@),
    {
        FileUnlinkBuilder {
            base_url,
            path: String::from_str(path),
        }
    }

    /// The members of the body, in order.
    pub open spec fn members(&self) -> Seq<(Seq<char>, Json)> {
        seq![("request"@, jstr("unlink"@))]
    }

    /// The request that this builder describes.
    pub open spec fn spec_request(&self) -> RequestView {
        request_to(Method::Put, url_of(self.base_url@, fs_path(self.path@))).with_json(
            Json::Object(self.members()),
        )
    }

    /// The request: `PUT` on the link with an `unlink` body.
    pub fn get_request(&self) -> (r: Request)
        ensures
            r@ == self.spec_request(),
    {
        let path = write_fs_path(self.path.as_str());
        let mut r = Request::new(Method::Put, self.base_url.as_str(), &path);
        let mut m = Members::new();
        m.add_str("request", "unlink");
        proof {
            assert(m@ =~= self.members());
        }
        r.set_json(m.into_object());
        r
    }
}

} // verus!
