//! Resetting extra attributes of a file.

use vstd::prelude::*;

use crate::files::{fs_path, write_fs_path};
use crate::files::extra_attributes::{attribute_letters, write_attribute_letters};
use crate::request::{
    jstr, request_to, url_of, Json, JsonValue, Members, Method, Request, RequestView,
};

verus! {

/// A request that resets extra attributes of a file.
#[derive(Clone, Debug)]
pub struct FileExtraAttributesResetBuilder {
    pub base_url: String,
    pub path: String,
    pub apf_authorized: Option<bool>,
    pub shared_library: Option<bool>,
    pub program_controlled: Option<bool>,
    pub shared_address_space: Option<bool>,
}

impl FileExtraAttributesResetBuilder {
    /// The builder as it is first made.
    pub open spec fn is_new(self, base_url: Seq<char>, path: Seq<char>) -> bool {
        &&& self.base_url@ == base_url
        &&& self.path@ == path
        &&& self.apf_authorized is None
        &&& self.shared_library is None
        &&& self.program_controlled is None
        &&& self.shared_address_space is None
    }

    /// A builder that resets extra attributes of the file at `path`.
    pub fn new(base_url: String, path: &str) -> (r: FileExtraAttributesResetBuilder)
        ensures
            r.is_new(base_url@, path@),
    {
        FileExtraAttributesResetBuilder {
            base_url,
            path: String::from_str(path),
            apf_authorized: None,
            shared_library: None,
            program_controlled: None,
            shared_address_space: None,
        }
    }

    /// Chooses APF authorization.
    pub fn apf_authorized(self, value: bool) -> (r: FileExtraAttributesResetBuilder)
        ensures
            r == (FileExtraAttributesResetBuilder { apf_authorized: Some(value), ..self }),
    {
        FileExtraAttributesResetBuilder { apf_authorized: Some(value), ..self }
    }

    /// Chooses the shared library attribute.
    pub fn shared_library(self, value: bool) -> (r: FileExtraAttributesResetBuilder)
        ensures
            r == (FileExtraAttributesResetBuilder { shared_library: Some(value), ..self }),
    {
        FileExtraAttributesResetBuilder { shared_library: Some(value), ..self }
    }

    /// Chooses program control.
    pub fn program_controlled(self, value: bool) -> (r: FileExtraAttributesResetBuilder)
        ensures
            r == (FileExtraAttributesResetBuilder { program_controlled: Some(value), ..self }),
    {
        FileExtraAttributesResetBuilder { program_controlled: Some(value), ..self }
    }

    /// Chooses the shared address space attribute.
    pub fn shared_address_space(self, value: bool) -> (r: FileExtraAttributesResetBuilder)
        ensures
            r == (FileExtraAttributesResetBuilder { shared_address_space: Some(value), ..self }),
    {
        FileExtraAttributesResetBuilder { shared_address_space: Some(value), ..self }
    }

    /// The members of the body, in order.
    pub open spec fn members(&self) -> Seq<(Seq<char>, Json)> {
        seq![
            ("request"@, jstr("extattr"@)),
            (
                "reset"@,
                jstr(
                    attribute_letters(
                        self.apf_authorized == Some(true),
                        self.shared_library == Some(true),
                        self.program_controlled == Some(true),
                        self.shared_address_space == Some(true),
                    ),
                ),
            ),
        ]
    }

    /// The request that this builder describes.
    pub open spec fn spec_request(&self) -> RequestView {
        request_to(Method::Put, url_of(self.base_url@, fs_path(self.path@))).with_json(
            Json::Object(self.members()),
        )
    }

    /// The request: `PUT` on the file with an `extattr` body that resets the chosen attributes.
    pub fn get_request(&self) -> (r: Request)
        ensures
            r@ == self.spec_request(),
    {
        let path = write_fs_path(self.path.as_str());
        let mut r = Request::new(Method::Put, self.base_url.as_str(), &path);
        let mut m = Members::new();
        m.add_str("request", "extattr");
        let letters = write_attribute_letters(
            self.apf_authorized == Some(true),
            self.shared_library == Some(true),
            self.program_controlled == Some(true),
            self.shared_address_space == Some(true),
        );
        m.add("reset", JsonValue::Str(letters));
        proof {
            assert(m@ =~= self.members());
        }
        r.set_json(m.into_object());
        r
    }
}

} // verus!
