//! Creating variables.

use vstd::prelude::*;

use crate::request::{
    items_view, json_array, jstr, request_to, url_of, Json, JsonValue, Members, Method, Request,
    RequestView,
};
use crate::system_variables::{system_path, write_system_path};

verus! {

/// A variable to create: its name, value and description.
#[derive(Clone, Debug, PartialEq, Eq, Hash)]
pub struct NewVariable {
    pub name: String,
    pub value: String,
    pub description: String,
}

/// A variable to create, described step by step.
#[derive(Clone, Debug, PartialEq, Eq, Hash)]
pub struct NewVariableBuilder {
    pub name: String,
    pub value: String,
    pub description: String,
}

/// The JSON of a variable to create.
pub open spec fn variable_json(v: NewVariable) -> Json {
    Json::Object(
        seq![
            ("name"@, jstr(v.name@)),
            ("value"@, jstr(v.value@)),
            ("description"@, jstr(v.description@)),
        ],
    )
}

impl NewVariable {
    /// A variable to create.
    pub fn new(name: &str, value: &str, description: &str) -> (r: NewVariable)
        ensures
            r.name@ == name@,
            r.value@ == value@,
            r.description@ == description@,
    {
        NewVariable {
            name: String::from_str(name),
            value: String::from_str(value),
            description: String::from_str(description),
        }
    }

    /// A builder of a variable with this name and value and no description.
    pub fn builder(name: &str, value: &str) -> (r: NewVariableBuilder)
        ensures
            r.name@ == name@,
            r.value@ == value@,
            r.description@ == Seq::<char>::empty(),
    {
        NewVariableBuilder::new(name, value)
    }

    /// The JSON of this variable.
    pub fn to_json(&self) -> (r: JsonValue)
        ensures
            r@ == variable_json(*self),
    {
        let mut m = Members::new();
        m.add_str("name", self.name.as_str());
        m.add_str("value", self.value.as_str());
        m.add_str("description", self.description.as_str());
        proof {
            assert(m@ =~= seq![
                ("name"@, jstr(self.name@)),
                ("value"@, jstr(self.value@)),
                ("description"@, jstr(self.description@)),
            ]);
        }
        m.into_object()
    }
}

impl NewVariableBuilder {
    /// A variable with this name and value and no description.
    pub fn new(name: &str, value: &str) -> (r: NewVariableBuilder)
        ensures
            r.name@ == name@,
            r.value@ == value@,
            r.description@ == Seq::<char>::empty(),
    {
        NewVariableBuilder {
            name: String::from_str(name),
            value: String::from_str(value),
            description: String::new(),
        }
    }

    /// Sets the description.
    pub fn description(self, value: &str) -> (r: NewVariableBuilder)
        ensures
            r.name == self.name,
            r.value == self.value,
            r.description@ == value@,
    {
        NewVariableBuilder { description: String::from_str(value), ..self }
    }

    /// The variable described.
    pub fn build(self) -> (r: NewVariable)
        ensures
            r.name == self.name,
            r.value == self.value,
            r.description == self.description,
    {
        NewVariable { name: self.name, value: self.value, description: self.description }
    }
}

/// A request that creates variables on a system.
#[derive(Clone, Debug)]
pub struct CreateBuilder {
    pub base_url: String,
    pub sysplex: String,
    pub system: String,
    pub new_variables: Vec<NewVariable>,
}

impl CreateBuilder {
    /// A builder that creates `new_variables` on `sysplex.system`.
    pub fn new(
        base_url: String,
        sysplex: &str,
        system: &str,
        new_variables: Vec<NewVariable>,
    ) -> (r: CreateBuilder)
        ensures
            r.base_url == base_url,
            r.sysplex@ == sysplex@,
            r.system@ == system@,
            r.new_variables == new_variables,
    {
        CreateBuilder {
            base_url,
            sysplex: String::from_str(sysplex),
            system: String::from_str(system),
            new_variables,
        }
    }

    /// The request that this builder describes.
    pub open spec fn spec_request(&self) -> RequestView {
        request_to(Method::Post, url_of(self.base_url@, system_path(self.sysplex@, self.system@))).with_json(
            Json::Object(
                seq![
                    (
                        "system-variable-list"@,
                        Json::Array(
                            Seq::new(self.new_variables@.len(), |i: int| variable_json(self.new_variables@[i])),
                        ),
                    ),
                ],
            ),
        )
    }

    /// The request: `POST` on the system with the list of variables.
    pub fn get_request(&self) -> (r: Request)
        ensures
            r@ == self.spec_request(),
    {
        let path = write_system_path(self.sysplex.as_str(), self.system.as_str());
        let mut r = Request::new(Method::Post, self.base_url.as_str(), &path);
        let mut items: Vec<JsonValue> = Vec::new();
        let mut i: usize = 0;
        while i < self.new_variables.len()
            invariant
                0 <= i <= self.new_variables.len(),
                items@.len() == i,
                forall|k: int| 0 <= k < i ==> (#[trigger] items@[k])@ == variable_json(self.new_variables@[k]),
            decreases self.new_variables.len() - i,
        {
            items.push(self.new_variables[i].to_json());
            i = i + 1;
        }
        proof {
            assert(items_view(items@) =~= Seq::new(
                self.new_variables@.len(),
                |k: int| variable_json(self.new_variables@[k]),
            ));
        }
        let mut m = Members::new();
        m.add("system-variable-list", json_array(items));
        proof {
            assert(m@ =~= seq![
                (
                    "system-variable-list"@,
                    Json::Array(
                        Seq::new(self.new_variables@.len(), |i: int| variable_json(self.new_variables@[i])),
                    ),
                ),
            ]);
        }
        r.set_json(m.into_object());
        r
    }
}

} // verus!
