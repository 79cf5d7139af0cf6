//! System variables and system symbols: listing, creating, deleting and
//! exporting them.

pub mod create;
pub mod delete;
pub mod export;
pub mod list;
pub mod symbols;

use vstd::prelude::*;

use crate::text::{chars_of, extend_str};

use self::create::{NewSystemVariable, VariableCreateBuilder};
use self::delete::VariableDeleteBuilder;
use self::export::VariableExportBuilder;
use self::list::SystemVariableListBuilder;
use self::symbols::SystemSymbolListBuilder;

verus! {

/// The path of the variables of a system: the sysplex and the system joined
/// by a dot.
pub open spec fn system_path(sysplex: Seq<char>, system: Seq<char>) -> Seq<char> {
    "/zosmf/variables/rest/1.0/systems/"@ + sysplex + seq!['.'] + system
}

/// The path of the variables of a system.
pub fn write_system_path(sysplex: &str, system: &str) -> (r: Vec<char>)
    ensures
        r@ == system_path(sysplex@, system@),
{
    let mut v = chars_of("/zosmf/variables/rest/1.0/systems/");
    extend_str(&mut v, sysplex);
    v.push('.');
    extend_str(&mut v, system);
    proof {
        assert(v@ =~= system_path(sysplex@, system@));
    }
    v
}

/// The requests on the system variables of one z/OSMF server.
#[derive(Clone, Debug)]
pub struct SystemVariablesClient {
    pub base_url: String,
}

impl SystemVariablesClient {
    /// A client for the server at `base_url`.
    pub fn new(base_url: String) -> (r: SystemVariablesClient)
        ensures
            r.base_url == base_url,
    {
        SystemVariablesClient { base_url }
    }

    /// Creates variables on a system.
    pub fn create(
        &self,
        sysplex: &str,
        system: &str,
        new_variables: Vec<NewSystemVariable>,
    ) -> (r: VariableCreateBuilder)
        ensures
            r.base_url == self.base_url,
            r.sysplex@ == sysplex@,
            r.system@ == system@,
            r.new_variables == new_variables,
    {
        VariableCreateBuilder::new(self.base_url.clone(), sysplex, system, new_variables)
    }

    /// Deletes variables of a system.
    pub fn delete(
        &self,
        sysplex: &str,
        system: &str,
        variable_names: Vec<String>,
    ) -> (r: VariableDeleteBuilder)
        ensures
            r.base_url == self.base_url,
            r.sysplex@ == sysplex@,
            r.system@ == system@,
            r.variable_names == variable_names,
    {
        VariableDeleteBuilder::new(self.base_url.clone(), sysplex, system, variable_names)
    }

    /// Exports the variables of a system to a file.
    pub fn export(&self, sysplex: &str, system: &str, path: &str) -> (r: VariableExportBuilder)
        ensures
            r.is_new(self.base_url@, sysplex@, system@, path@),
    {
        VariableExportBuilder::new(self.base_url.clone(), sysplex, system, path)
    }

    /// Lists the variables of a system.
    pub fn list(&self) -> (r: SystemVariableListBuilder)
        ensures
            r.is_new(self.base_url@),
    {
        SystemVariableListBuilder::new(self.base_url.clone())
    }

    /// Lists the symbols of the local system.
    pub fn symbols(&self) -> (r: SystemSymbolListBuilder)
        ensures
            r.is_new(self.base_url@),
    {
        SystemSymbolListBuilder::new(self.base_url.clone())
    }
}

} // verus!
