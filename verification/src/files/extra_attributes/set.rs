//! Setting extra attributes of a file.

use vstd::prelude::*;

use crate::files::{fs_path, write_fs_path};
use crate::files::extra_attributes::{attribute_letters, write_attribute_letters};
use crate::request::{
    jstr, request_to, url_of, Json, JsonValue, Members, Method, Request, RequestView,
};

verus! {

/// A request that sets extra attributes of a file.
#[derive(Clone, Debug)]
pub struct SetBuilder {
    pub base_url: String,
    pub path: String,
    pub apf_authorized: bool,
    pub shared_library: bool,
    pub program_controlled: bool,
    pub shared_address_space: bool,
}

impl SetBuilder {
    /// The builder as it is first made.
    pub open spec fn is_new(self, base_url: Seq<char>, path: Seq<char>) -> bool {
        &&& self.base_url@ == base_url
        &&& self.path@ == path
        &&& self.apf_authorized == false
        &&& self.shared_library == false
        &&& self.program_controlled == false
        &&& self.shared_address_space == false
    }

    /// A builder that sets extra attributes of the file at `path`.
    pub fn new(base_url: String, path: &str) -> (r: SetBuilder)
        ensures
            r.is_new(base_url@, path@),
    {
        SetBuilder {
            base_url,
            path: String::from_str(path),
            apf_authorized: false,
            shared_library: false,
            program_controlled: false,
            shared_address_space: false,
        }
    }

    /// Sets APF authorization.
    pub fn apf_authorized(self, value: bool) -> (r: SetBuilder)
        ensures
            r == (SetBuilder { apf_authorized: value, ..self }),
    {
        SetBuilder { apf_authorized: value, ..self }
    }

    /// Sets the shared library attribute.
    pub fn shared_library(self, value: bool) -> (r: SetBuilder)
        ensures
            r == (SetBuilder { shared_library: value, ..self }),
    {
        SetBuilder { shared_library: value, ..self }
    }

    /// Sets program control.
    pub fn program_controlled(self, value: bool) -> (r: SetBuilder)
        ensures
            r == (SetBuilder { program_controlled: value, ..self }),
    {
        SetBuilder { program_controlled: value, ..self }
    }

    /// Sets the shared address space attribute.
    pub fn shared_address_space(self, value: bool) -> (r: SetBuilder)
        ensures
            r == (SetBuilder { shared_address_space: value, ..self }),
    {
        SetBuilder { shared_address_space: value, ..self }
    }

    /// The members of the body, in order.
    pub open spec fn members(&self) -> Seq<(Seq<char>, Json)> {
        seq![
            ("request"@, jstr("extattr"@)),
            (
                "set"@,
                jstr(
                    attribute_letters(
                        self.apf_authorized,
                        self.shared_library,
                        self.program_controlled,
                        self.shared_address_space,
                    ),
                ),
            ),
        ]
    }

    /// The request that this builder describes.
    pub open spec fn spec_request(&self) -> RequestView {
        request_to(Method::Put, url_of(self.base_url@, fs_path(self.path@))).with_json(
            Json::Object(self.members()),
        )
    }

    /// The request: `PUT` on the file with an `extattr` body that sets the chosen attributes.
    pub fn get_request(&self) -> (r: Request)
        ensures
            r@ == self.spec_request(),
    {
        let path = write_fs_path(self.path.as_str());
        let mut r = Request::new(Method::Put, self.base_url.as_str(), &path);
        let mut m = Members::new();
        m.add_str("request", "extattr");
        let letters = write_attribute_letters(
            self.apf_authorized,
            self.shared_library,
            self.program_controlled,
            self.shared_address_space,
        );
        m.add("set", JsonValue::Str(letters));
        proof {
            assert(m@ =~= self.members());
        }
        r.set_json(m.into_object());
        r
    }
}

} // verus!
