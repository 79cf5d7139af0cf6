//! Deleting a file or a directory.

use vstd::prelude::*;

use crate::files::{fs_path, write_fs_path};
use crate::request::{request_to, url_of, Method, Request, RequestView};

verus! {

/// A request that deletes a file or a directory.
#[derive(Clone, Debug)]
pub struct FileDeleteBuilder {
    pub base_url: String,
    pub path: String,
    pub recursive: bool,
}

impl FileDeleteBuilder {
    /// The builder as it is first made.
    pub open spec fn is_new(self, base_url: Seq<char>, path: Seq<char>) -> bool {
        &&& self.base_url@ == base_url
        &&& self.path@ == path
        &&& !self.recursive
    }

    /// A builder that deletes the file at `path`.
    pub fn new(base_url: String, path: &str) -> (r: FileDeleteBuilder)
        ensures
            r.is_new(base_url@, path@),
    {
        FileDeleteBuilder { base_url, path: String::from_str(path), recursive: false }
    }

    /// Deletes a directory with its contents.
    pub fn recursive(self, value: bool) -> (r: FileDeleteBuilder)
        ensures
            r == (FileDeleteBuilder { recursive: value, ..self }),
    {
        FileDeleteBuilder { recursive: value, ..self }
    }

    /// The request that this builder describes.
    pub open spec fn spec_request(&self) -> RequestView {
        request_to(Method::Delete, url_of(self.base_url@, fs_path(self.path@))).with_header_if(
            self.recursive,
            "X-IBM-Option"@,
            "recursive"@,
        )
    }

    /// The request: `DELETE` on the file, with `X-IBM-Option: recursive` for
    /// a recursive deletion.
    pub fn get_request(&self) -> (r: Request)
        ensures
            r@ == self.spec_request(),
    {
        let path = write_fs_path(self.path.as_str());
        let mut r = Request::new(Method::Delete, self.base_url.as_str(), &path);
        r.add_header_if(self.recursive, "X-IBM-Option", "recursive");
        r
    }
}

} // verus!
