//! Creating a file or a directory.

use vstd::prelude::*;

use crate::error::{Error, ErrorView};
use crate::files::{fs_path, write_fs_path};
use crate::request::{
    jstr, member_opt, request_to, str_json, url_of, Json, JsonValue, Members, Method, Request,
    RequestView,
};
use crate::restfiles::{get_transaction_id, header_view, transaction_id_of};

verus! {

/// What a creation makes.
#[derive(Clone, Copy, Debug, PartialEq, Eq, Structural, Hash)]
pub enum CreateFileType {
    Directory,
    File,
}

impl CreateFileType {
    /// The name of this value in requests and answers.
    pub open spec fn text(self) -> Seq<char> {
        match self {
            CreateFileType::Directory => "directory"@,
            CreateFileType::File => "file"@,
        }
    }

    /// The name of this value in requests and answers.
    pub fn as_str(&self) -> (r: &'static str)
        ensures
            r@ == self.text(),
    {
        match self {
            CreateFileType::Directory => "directory",
            CreateFileType::File => "file",
        }
    }
}

/// The answer to a creation.
#[derive(Clone, Debug)]
pub struct FileCreate {
    pub transaction_id: String,
}

impl FileCreate {
    /// Reads the answer to a creation from its transaction id header.
    pub fn from_headers(transaction_id: &Option<Vec<u8>>) -> (r: Result<FileCreate, Error>)
        ensures
            match r {
                Ok(v) => transaction_id_of(header_view(*transaction_id)) == Ok::<
                    Seq<char>,
                    ErrorView,
                >(v.transaction_id@),
                Err(e) => transaction_id_of(header_view(*transaction_id)) == Err::<Seq<char>, ErrorView>(e@),
            },
    {
        match get_transaction_id(transaction_id) {
            Ok(t) => Ok(FileCreate { transaction_id: t }),
            Err(e) => Err(e),
        }
    }

    /// The transaction id.
    pub fn transaction_id(&self) -> (r: &str)
        ensures
            r@ == self.transaction_id@,
    {
        self.transaction_id.as_str()
    }
}

/// A request that creates a file or a directory.
#[derive(Clone, Debug)]
pub struct FileCreateBuilder {
    pub base_url: String,
    pub path: String,
    pub file_type: Option<CreateFileType>,
    pub mode: Option<String>,
}

impl FileCreateBuilder {
    /// The builder as it is first made.
    pub open spec fn is_new(self, base_url: Seq<char>, path: Seq<char>) -> bool {
        &&& self.base_url@ == base_url
        &&& self.path@ == path
        &&& self.file_type is None
        &&& self.mode is None
    }

    /// A builder that creates a file at `path`.
    pub fn new(base_url: String, path: &str) -> (r: FileCreateBuilder)
        ensures
            r.is_new(base_url@, path@),
    {
        FileCreateBuilder {
            base_url,
            path: String::from_str(path),
            file_type: None,
            mode: None,
        }
    }

    /// Sets what is made.
    pub fn file_type(self, value: CreateFileType) -> (r: FileCreateBuilder)
        ensures
            r == (FileCreateBuilder { file_type: Some(value), ..self }),
    {
        FileCreateBuilder { file_type: Some(value), ..self }
    }

    /// Sets the mode of what is made.
    pub fn mode(self, value: &str) -> (r: FileCreateBuilder)
        ensures
            r.mode matches Some(s) && s@ == value@,
            r == (FileCreateBuilder { mode: r.mode, ..self }),
    {
        FileCreateBuilder { mode: Some(String::from_str(value)), ..self }
    }

    /// The members of the body, in order.
    pub open spec fn members(&self) -> Seq<(Seq<char>, Json)> {
        member_opt(
            "type"@,
            match self.file_type {
                Some(e) => Some(jstr(e.text())),
                None => None,
            },
        ) + member_opt("mode"@, str_json(self.mode))
    }

    /// The request that this builder describes.
    pub open spec fn spec_request(&self) -> RequestView {
        request_to(Method::Post, url_of(self.base_url@, fs_path(self.path@))).with_json(
            Json::Object(self.members()),
        )
    }

    /// The request: `POST` on the path with the type and mode.
    pub fn get_request(&self) -> (r: Request)
        ensures
            r@ == self.spec_request(),
    {
        let path = write_fs_path(self.path.as_str());
        let mut r = Request::new(Method::Post, self.base_url.as_str(), &path);
        let mut m = Members::new();
        m.add_opt(
            "type",
            match self.file_type {
                Some(e) => Some(JsonValue::Str(String::from_str(e.as_str()))),
                None => None,
            },
        );
        m.add_opt_str("mode", &self.mode);
        proof {
            assert(m@ =~= self.members());
        }
        r.set_json(m.into_object());
        r
    }
}

} // verus!
