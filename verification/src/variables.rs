//! Variables and symbols of the systems that z/OSMF reaches: listing,
//! creating, deleting and exporting them.

pub mod create;
pub mod list;
pub mod symbols;

use vstd::prelude::*;

use crate::system_variables::delete::VariableDeleteBuilder;
use crate::system_variables::export::VariableExportBuilder;

use self::create::{CreateBuilder, NewVariable};
use self::list::VariablesBuilder;
use self::symbols::SymbolsBuilder;

verus! {

/// The requests on the variables of one z/OSMF server.
#[derive(Clone, Debug)]
pub struct VariablesClient {
    pub base_url: String,
}

impl VariablesClient {
    /// A client for the server at `base_url`.
    pub fn new(base_url: String) -> (r: VariablesClient)
        ensures
            r.base_url == base_url,
    {
        VariablesClient { base_url }
    }

    /// Creates variables on a system.
    pub fn create(
        &self,
        sysplex: &str,
        system: &str,
        new_variables: Vec<NewVariable>,
    ) -> (r: CreateBuilder)
        ensures
            r.base_url == self.base_url,
            r.sysplex@ == sysplex@,
            r.system@ == system@,
            r.new_variables == new_variables,
    {
        CreateBuilder::new(self.base_url.clone(), sysplex, system, new_variables)
    }

    /// Deletes variables of a system.
    pub fn delete(
        &self,
        sysplex: &str,
        system: &str,
        variable_names: Vec<String>,
    ) -> (r: VariableDeleteBuilder)
        ensures
            r.base_url == self.base_url,
            r.sysplex@ == sysplex@,
            r.system@ == system@,
            r.variable_names == variable_names,
    {
        VariableDeleteBuilder::new(self.base_url.clone(), sysplex, system, variable_names)
    }

    /// Exports the variables of a system to a file.
    pub fn export(&self, sysplex: &str, system: &str, path: &str) -> (r: VariableExportBuilder)
        ensures
            r.is_new(self.base_url@, sysplex@, system@, path@),
    {
        VariableExportBuilder::new(self.base_url.clone(), sysplex, system, path)
    }

    /// Lists the variables of a system.
    pub fn list(&self) -> (r: VariablesBuilder)
        ensures
            r.is_new(self.base_url@),
    {
        VariablesBuilder::new(self.base_url.clone())
    }

    /// Lists the symbols of the local system.
    pub fn symbols(&self) -> (r: SymbolsBuilder)
        ensures
            r.is_new(self.base_url@),
    {
        SymbolsBuilder::new(self.base_url.clone())
    }
}

} // verus!
