//! Copying a dataset into a file.

use vstd::prelude::*;

use crate::files::{fs_path, write_fs_path};
use crate::request::{
    jstr, member_opt, request_to, url_of, Json, JsonValue, Members, Method, Request, RequestView,
};

verus! {

/// How the data of a copied dataset is treated.
#[derive(Clone, Copy, Debug, PartialEq, Eq, Structural, Hash)]
pub enum FileCopyDatasetType {
    Binary,
    Executable,
    Text,
}

impl FileCopyDatasetType {
    /// The name of this value in requests and answers.
    pub open spec fn text(self) -> Seq<char> {
        match self {
            FileCopyDatasetType::Binary => "binary"@,
            FileCopyDatasetType::Executable => "executable"@,
            FileCopyDatasetType::Text => "text"@,
        }
    }

    /// The name of this value in requests and answers.
    pub fn as_str(&self) -> (r: &'static str)
        ensures
            r@ == self.text(),
    {
        match self {
            FileCopyDatasetType::Binary => "binary",
            FileCopyDatasetType::Executable => "executable",
            FileCopyDatasetType::Text => "text",
        }
    }
}

/// A request that copies a dataset, or a member of one, into a file.
#[derive(Clone, Debug)]
pub struct FileCopyDatasetBuilder {
    pub base_url: String,
    pub from_dataset: String,
    pub to_path: String,
    pub from_member: Option<String>,
    pub dataset_type: Option<FileCopyDatasetType>,
}

impl FileCopyDatasetBuilder {
    /// The builder as it is first made.
    pub open spec fn is_new(
        self,
        base_url: Seq<char>,
        from_dataset: Seq<char>,
        to_path: Seq<char>,
    ) -> bool {
        &&& self.base_url@ == base_url
        &&& self.from_dataset@ == from_dataset
        &&& self.to_path@ == to_path
        &&& self.from_member is None
        &&& self.dataset_type is None
    }

    /// A builder that copies the dataset `from_dataset` to `to_path`.
    pub fn new(base_url: String, from_dataset: &str, to_path: &str) -> (r: FileCopyDatasetBuilder)
        ensures
            r.is_new(base_url@, from_dataset@, to_path@),
    {
        FileCopyDatasetBuilder {
            base_url,
            from_dataset: String::from_str(from_dataset),
            to_path: String::from_str(to_path),
            from_member: None,
            dataset_type: None,
        }
    }

    /// Copies one member of the dataset.
    pub fn from_member(self, value: &str) -> (r: FileCopyDatasetBuilder)
        ensures
            r.from_member matches Some(s) && s@ == value@,
            r == (FileCopyDatasetBuilder { from_member: r.from_member, ..self }),
    {
        FileCopyDatasetBuilder { from_member: Some(String::from_str(value)), ..self }
    }

    /// Sets how the data is treated.
    pub fn dataset_type(self, value: FileCopyDatasetType) -> (r: FileCopyDatasetBuilder)
        ensures
            r == (FileCopyDatasetBuilder { dataset_type: Some(value), ..self }),
    {
        FileCopyDatasetBuilder { dataset_type: Some(value), ..self }
    }

    /// The members of the body, in order.
    pub open spec fn members(&self) -> Seq<(Seq<char>, Json)> {
        seq![
            ("request"@, jstr("copy"@)),
            ("from-dataset"@, Json::Object(self.from_dataset_members())),
        ]
    }

    /// The request that this builder describes.
    pub open spec fn spec_request(&self) -> RequestView {
        request_to(Method::Put, url_of(self.base_url@, fs_path(self.to_path@))).with_json(
            Json::Object(self.members()),
        )
    }

    /// The request: `PUT` on the target with a `copy` body naming the dataset.
    pub fn get_request(&self) -> (r: Request)
        ensures
            r@ == self.spec_request(),
    {
        let path = write_fs_path(self.to_path.as_str());
        let mut r = Request::new(Method::Put, self.base_url.as_str(), &path);
        let mut m = Members::new();
        m.add_str("request", "copy");
        m.add("from-dataset", self.from_dataset_json());
        proof {
            assert(m@ =~= self.members());
        }
        r.set_json(m.into_object());
        r
    }
}

impl FileCopyDatasetBuilder {
    /// The members of the `from-dataset` object: the dataset's name, then its
    /// member and its type, each when it is given.
    pub open spec fn from_dataset_members(&self) -> Seq<(Seq<char>, Json)> {
        seq![("dsn"@, jstr(self.from_dataset@))] + member_opt(
            "member"@,
            match self.from_member {
                Some(m) => Some(jstr(m@)),
                None => None,
            },
        ) + member_opt(
            "type"@,
            match self.dataset_type {
                Some(t) => Some(jstr(t.text())),
                None => None,
            },
        )
    }

    /// The `from-dataset` object.
    pub fn from_dataset_json(&self) -> (r: JsonValue)
        ensures
            r@ == Json::Object(self.from_dataset_members()),
    {
        let mut m = Members::new();
        m.add_str("dsn", self.from_dataset.as_str());
        m.add_opt_str("member", &self.from_member);
        m.add_opt(
            "type",
            match self.dataset_type {
                Some(t) => Some(JsonValue::Str(String::from_str(t.as_str()))),
                None => None,
            },
        );
        proof {
            assert(m@ =~= self.from_dataset_members());
        }
        m.into_object()
    }
}

} // verus!
