//! Removing the tag of a file.

use vstd::prelude::*;

use crate::error::{Error, ErrorView};
use crate::files::{fs_path, write_fs_path, FileTagLinks};
use crate::request::{
    jstr, request_to, url_of, Json, JsonValue, Members, Method, Request, RequestView,
};
use crate::restfiles::{get_transaction_id, header_view, transaction_id_of};

verus! {

/// The answer to the removal of a tag.
#[derive(Clone, Debug)]
pub struct FileRemoveTag {
    pub transaction_id: String,
}

impl FileRemoveTag {
    /// Reads the answer from its transaction id header.
    pub fn from_headers(transaction_id: &Option<Vec<u8>>) -> (r: Result<FileRemoveTag, Error>)
        ensures
            match r {
                Ok(v) => transaction_id_of(header_view(*transaction_id)) == Ok::<
                    Seq<char>,
                    ErrorView,
                >(v.transaction_id@),
                Err(e) => transaction_id_of(header_view(*transaction_id)) == Err::<Seq<char>, ErrorView>(e@),
            },
    {
        match get_transaction_id(transaction_id) {
            Ok(t) => Ok(FileRemoveTag { transaction_id: t }),
            Err(e) => Err(e),
        }
    }

    /// The transaction id.
    pub fn transaction_id(&self) -> (r: &str)
        ensures
            r@ == self.transaction_id@,
    {
        self.transaction_id.as_str()
    }
}

/// A request that removes the tag of a file.
#[derive(Clone, Debug)]
pub struct FileRemoveTagBuilder {
    pub base_url: String,
    pub path: String,
    pub links: Option<FileTagLinks>,
    pub recursive: bool,
}

impl FileRemoveTagBuilder {
    /// The builder as it is first made.
    pub open spec fn is_new(self, base_url: Seq<char>, path: Seq<char>) -> bool {
        &&& self.base_url@ == base_url
        &&& self.path@ == path
        &&& self.links is None
        &&& self.recursive == false
    }

    /// A builder that removes the tag at `path`.
    pub fn new(base_url: String, path: &str) -> (r: FileRemoveTagBuilder)
        ensures
            r.is_new(base_url@, path@),
    {
        FileRemoveTagBuilder {
            base_url,
            path: String::from_str(path),
            links: None,
            recursive: false,
        }
    }

    /// Sets how symbolic links are treated.
    pub fn links(self, value: FileTagLinks) -> (r: FileRemoveTagBuilder)
        ensures
            r == (FileRemoveTagBuilder { links: Some(value), ..self }),
    {
        FileRemoveTagBuilder { links: Some(value), ..self }
    }

    /// Removes the tags of a directory's contents too.
    pub fn recursive(self, value: bool) -> (r: FileRemoveTagBuilder)
        ensures
            r == (FileRemoveTagBuilder { recursive: value, ..self }),
    {
        FileRemoveTagBuilder { recursive: value, ..self }
    }

    /// The members of the body, in order.
    pub open spec fn members(&self) -> Seq<(Seq<char>, Json)> {
        seq![
            ("request"@, jstr("chtag"@)),
            ("action"@, jstr("remove"@)),
            (
                "links"@,
                match self.links {
                    Some(e) => jstr(e.text()),
                    None => Json::Null,
                },
            ),
            ("recursive"@, Json::Bool(self.recursive)),
        ]
    }

    /// The request that this builder describes.
    pub open spec fn spec_request(&self) -> RequestView {
        request_to(Method::Put, url_of(self.base_url@, fs_path(self.path@))).with_json(
            Json::Object(self.members()),
        )
    }

    /// The request: `PUT` on the path with a `chtag` remove body.
    pub fn get_request(&self) -> (r: Request)
        ensures
            r@ == self.spec_request(),
    {
        let path = write_fs_path(self.path.as_str());
        let mut r = Request::new(Method::Put, self.base_url.as_str(), &path);
        let mut m = Members::new();
        m.add_str("request", "chtag");
        m.add_str("action", "remove");
        m.add(
            "links",
            match self.links {
                Some(e) => JsonValue::Str(String::from_str(e.as_str())),
                None => JsonValue::Null,
            },
        );
        m.add_bool("recursive", self.recursive);
        proof {
            assert(m@ =~= self.members());
        }
        r.set_json(m.into_object());
        r
    }
}

} // verus!
