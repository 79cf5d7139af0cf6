//! Deleting system variables.

use vstd::prelude::*;

use crate::request::{json_strings, request_to, url_of, Json, Method, Request, RequestView};
use crate::system_variables::{system_path, write_system_path};

verus! {

/// A request that deletes variables of a system.
#[derive(Clone, Debug)]
pub struct VariableDeleteBuilder {
    pub base_url: String,
    pub sysplex: String,
    pub system: String,
    pub variable_names: Vec<String>,
}

impl VariableDeleteBuilder {
    /// A builder that deletes the variables `variable_names` of
    /// `sysplex.system`.
    pub fn new(
        base_url: String,
        sysplex: &str,
        system: &str,
        variable_names: Vec<String>,
    ) -> (r: VariableDeleteBuilder)
        ensures
            r.base_url == base_url,
            r.sysplex@ == sysplex@,
            r.system@ == system@,
            r.variable_names == variable_names,
    {
        VariableDeleteBuilder {
            base_url,
            sysplex: String::from_str(sysplex),
            system: String::from_str(system),
            variable_names,
        }
    }

    /// The request that this builder describes.
    pub open spec fn spec_request(&self) -> RequestView {
        request_to(
            Method::Delete,
            url_of(self.base_url@, system_path(self.sysplex@, self.system@)),
        ).with_json(
            Json::Array(Seq::new(self.variable_names@.len(), |i: int| Json::Str(self.variable_names@[i]@))),
        )
    }

    /// The request: `DELETE` on the system with the JSON list of the names.
    pub fn get_request(&self) -> (r: Request)
        ensures
            r@ == self.spec_request(),
    {
        let path = write_system_path(self.sysplex.as_str(), self.system.as_str());
        let mut r = Request::new(Method::Delete, self.base_url.as_str(), &path);
        r.set_json(json_strings(&self.variable_names));
        r
    }
}

} // verus!
