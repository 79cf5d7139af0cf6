//! Exporting system variables to a file.

use vstd::prelude::*;

use crate::request::{
    jstr, member_opt, request_to, url_of, Json, Members, Method, Request, RequestView,
};
use crate::system_variables::{system_path, write_system_path};
use crate::text::extend_str;

verus! {

/// A request that exports the variables of a system to a file.
#[derive(Clone, Debug)]
pub struct VariableExportBuilder {
    pub base_url: String,
    pub sysplex: String,
    pub system: String,
    pub path: String,
    pub overwrite: Option<bool>,
}

impl VariableExportBuilder {
    /// The builder as it is first made.
    pub open spec fn is_new(
        self,
        base_url: Seq<char>,
        sysplex: Seq<char>,
        system: Seq<char>,
        path: Seq<char>,
    ) -> bool {
        &&& self.base_url@ == base_url
        &&& self.sysplex@ == sysplex
        &&& self.system@ == system
        &&& self.path@ == path
        &&& self.overwrite is None
    }

    /// A builder that exports the variables of `sysplex.system` to the file
    /// at `path`.
    pub fn new(
        base_url: String,
        sysplex: &str,
        system: &str,
        path: &str,
    ) -> (r: VariableExportBuilder)
        ensures
            r.is_new(base_url@, sysplex@, system@, path@),
    {
        VariableExportBuilder {
            base_url,
            sysplex: String::from_str(sysplex),
            system: String::from_str(system),
            path: String::from_str(path),
            overwrite: None,
        }
    }

    /// Replaces the file if it exists.
    pub fn overwrite(self, value: bool) -> (r: VariableExportBuilder)
        ensures
            r == (VariableExportBuilder { overwrite: Some(value), ..self }),
    {
        VariableExportBuilder { overwrite: Some(value), ..self }
    }

    /// The request that this builder describes.
    pub open spec fn spec_request(&self) -> RequestView {
        request_to(
            Method::Post,
            url_of(self.base_url@, system_path(self.sysplex@, self.system@) + "/actions/export"@),
        ).with_json(
            Json::Object(
                seq![("variables-export-file"@, jstr(self.path@))] + member_opt(
                    "overwrite"@,
                    match self.overwrite {
                        Some(b) => Some(Json::Bool(b)),
                        None => None,
                    },
                ),
            ),
        )
    }

    /// The request: `POST` on the system's export action with the file and,
    /// when given, whether to replace it.
    pub fn get_request(&self) -> (r: Request)
        ensures
            r@ == self.spec_request(),
    {
        let mut path = write_system_path(self.sysplex.as_str(), self.system.as_str());
        extend_str(&mut path, "/actions/export");
        let mut r = Request::new(Method::Post, self.base_url.as_str(), &path);
        let mut m = Members::new();
        m.add_str("variables-export-file", self.path.as_str());
        m.add_opt_bool("overwrite", self.overwrite);
        proof {
            assert(m@ =~= seq![("variables-export-file"@, jstr(self.path@))] + member_opt(
                "overwrite"@,
                match self.overwrite {
                    Some(b) => Some(Json::Bool(b)),
                    None => None,
                },
            ));
        }
        r.set_json(m.into_object());
        r
    }
}

} // verus!
