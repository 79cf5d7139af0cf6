//! Listing variables.

use vstd::prelude::*;

use crate::auth::strings_view;
use crate::error::{Error, ErrorView};
use crate::request::{
    opt_str_view, opt_view, request_result, request_to, url_of, Method, Request, RequestView,
};
use crate::system_variables::list::{append_names, names_of};
use crate::text::{chars_of, extend_str, string_of};

verus! {

/// The system whose variables are read: the local one, or one named by its
/// sysplex and its name.
#[derive(Clone, Debug, PartialEq, Eq, Hash)]
pub enum SystemId {
    Local,
    Named { sysplex: String, system: String },
}

/// The mathematical value of a [`SystemId`].
pub enum SystemIdView {
    Local,
    Named { sysplex: Seq<char>, system: Seq<char> },
}

impl View for SystemId {
    type V = SystemIdView;

    open spec fn view(&self) -> SystemIdView {
        match self {
            SystemId::Local => SystemIdView::Local,
            SystemId::Named { sysplex, system } => SystemIdView::Named {
                sysplex: sysplex@,
                system: system@,
            },
        }
    }
}

/// The text of a system id: `local`, or the sysplex and the system joined by
/// a dot.
pub open spec fn system_id_text(id: SystemIdView) -> Seq<char> {
    match id {
        SystemIdView::Local => "local"@,
        SystemIdView::Named { sysplex, system } => sysplex + seq!['.'] + system,
    }
}

impl Default for SystemId {
    fn default() -> (r: SystemId)
        ensures
            r == SystemId::Local,
    {
        SystemId::Local
    }
}

impl SystemId {
    /// Appends the text of this system id to `v`.
    pub fn write_to(&self, v: &mut Vec<char>)
        ensures
            final(v)@ == old(v)@ + system_id_text(self@),
    {
        match self {
            SystemId::Local => extend_str(v, "local"),
            SystemId::Named { sysplex, system } => {
                extend_str(v, sysplex.as_str());
                v.push('.');
                extend_str(v, system.as_str());
                proof {
                    assert(final(v)@ =~= old(v)@ + (sysplex@ + seq!['.'] + system@));
                }
            },
        }
    }

    /// The text of this system id, as its `Display` writes it.
    pub fn to_string(&self) -> (r: String)
        ensures
            r@ == system_id_text(self@),
    {
        let mut v: Vec<char> = Vec::new();
        self.write_to(&mut v);
        proof {
            assert(v@ =~= system_id_text(self@));
        }
        string_of(&v)
    }
}

/// A variable of a system.
#[derive(Clone, Debug, PartialEq, Eq, Hash)]
pub struct Variable {
    pub name: String,
    pub value: String,
    pub description: Option<String>,
}

impl Variable {
    /// The variable's name.
    pub fn name(&self) -> (r: &str)
        ensures
            r@ == self.name@,
    {
        self.name.as_str()
    }

    /// The variable's value.
    pub fn value(&self) -> (r: &str)
        ensures
            r@ == self.value@,
    {
        self.value.as_str()
    }

    /// The variable's description, if it has one.
    pub fn description(&self) -> (r: Option<&str>)
        ensures
            opt_str_view(r) == opt_view(self.description),
    {
        match &self.description {
            Some(s) => Some(s.as_str()),
            None => None,
        }
    }
}

/// The variables of a system.
#[derive(Clone, Debug, PartialEq, Eq, Hash)]
pub struct Variables {
    pub inner: Vec<Variable>,
}

impl Variables {
    /// The variables, in the order of the answer.
    pub fn items(&self) -> (r: &Vec<Variable>)
        ensures
            r == &self.inner,
    {
        &self.inner
    }
}

/// The path of the variables of a system.
pub open spec fn system_id_path(system_id: Option<SystemId>) -> Seq<char> {
    "/zosmf/variables/rest/1.0/systems/"@ + system_id_text(
        match system_id {
            Some(id) => id@,
            None => SystemIdView::Local,
        },
    )
}

/// A request that lists the variables of a system.
#[derive(Clone, Debug)]
pub struct VariablesBuilder {
    pub base_url: String,
    pub system_id: Option<SystemId>,
    pub names: Option<Vec<String>>,
}

impl VariablesBuilder {
    /// The builder as it is first made.
    pub open spec fn is_new(self, base_url: Seq<char>) -> bool {
        &&& self.base_url@ == base_url
        &&& self.system_id is None
        &&& self.names is None
    }

    /// A builder that lists the variables of the local system.
    pub fn new(base_url: String) -> (r: VariablesBuilder)
        ensures
            r.is_new(base_url@),
    {
        VariablesBuilder { base_url, system_id: None, names: None }
    }

    /// Lists the variables of another system.
    pub fn system_id(self, value: SystemId) -> (r: VariablesBuilder)
        ensures
            r == (VariablesBuilder { system_id: Some(value), ..self }),
    {
        VariablesBuilder { system_id: Some(value), ..self }
    }

    /// Asks for one more variable.
    pub fn name(self, value: &str) -> (r: VariablesBuilder)
        ensures
            names_of(r.names) == names_of(self.names).push(value@),
            r.names is Some,
            r.base_url == self.base_url,
            r.system_id == self.system_id,
    {
        let mut one: Vec<String> = Vec::new();
        one.push(String::from_str(value));
        let names = append_names(self.names, &one);
        proof {
            assert(strings_view(one@) =~= seq![value@]);
        }
        VariablesBuilder { base_url: self.base_url, system_id: self.system_id, names: Some(names) }
    }

    /// Asks for more variables.
    pub fn names(self, value: &Vec<String>) -> (r: VariablesBuilder)
        ensures
            names_of(r.names) == names_of(self.names) + strings_view(value@),
            r.names is Some,
            r.base_url == self.base_url,
            r.system_id == self.system_id,
    {
        let names = append_names(self.names, value);
        VariablesBuilder { base_url: self.base_url, system_id: self.system_id, names: Some(names) }
    }

    /// The request that this builder describes: `GET` on the system. Names,
    /// once any were asked for (even none, through an empty list), are
    /// handed on as one query value that holds a list, which cannot be
    /// written into a URL, so no request is made.
    pub open spec fn spec_request(&self) -> Result<RequestView, ErrorView> {
        match self.names {
            Some(_) => Err(ErrorView::Query("unsupported value"@)),
            None => Ok(
                request_to(Method::Get, url_of(self.base_url@, system_id_path(self.system_id))),
            ),
        }
    }

    /// The request, or the error that tells that the names asked for cannot
    /// be written as query parameters.
    pub fn get_request(&self) -> (r: Result<Request, Error>)
        ensures
            request_result(r) == self.spec_request(),
    {
        if self.names.is_some() {
            return Err(Error::Query(String::from_str("unsupported value")));
        }
        let mut path = chars_of("/zosmf/variables/rest/1.0/systems/");
        match &self.system_id {
            Some(id) => id.write_to(&mut path),
            None => SystemId::Local.write_to(&mut path),
        }
        Ok(Request::new(Method::Get, self.base_url.as_str(), &path))
    }
}

} // verus!
