//! Creating system variables.

use vstd::prelude::*;

use crate::request::{
    json_array, jstr, request_to, url_of, Json, JsonValue, Members, Method, Request, RequestView,
};
use crate::system_variables::{system_path, write_system_path};

verus! {

/// A variable to create: its name, value and description.
#[derive(Clone, Debug, PartialEq, Eq, Hash)]
pub struct NewSystemVariable {
    pub name: String,
    pub value: String,
    pub description: String,
}

/// The JSON of a variable to create.
pub open spec fn new_variable_json(v: NewSystemVariable) -> Json {
    Json::Object(
        seq![
            ("name"@, jstr(v.name@)),
            ("value"@, jstr(v.value@)),
            ("description"@, jstr(v.description@)),
        ],
    )
}

/// The JSON list of variables to create.
pub open spec fn new_variables_json(vs: Seq<NewSystemVariable>) -> Json {
    Json::Array(Seq::new(vs.len(), |i: int| new_variable_json(vs[i])))
}

impl NewSystemVariable {
    /// A variable to create.
    pub fn new(name: &str, value: &str, description: &str) -> (r: NewSystemVariable)
        ensures
            r.name@ == name@,
            r.value@ == value@,
            r.description@ == description@,
    {
        NewSystemVariable {
            name: String::from_str(name),
            value: String::from_str(value),
            description: String::from_str(description),
        }
    }

    /// The variable's name.
    pub fn name(&self) -> (r: &str)
        ensures
            r@ == self.name@,
    {
        self.name.as_str()
    }

    /// The variable's value.
    pub fn value(&self) -> (r: &str)
        ensures
            r@ == self.value@,
    {
        self.value.as_str()
    }

    /// The variable's description.
    pub fn description(&self) -> (r: &str)
        ensures
            r@ == self.description@,
    {
        self.description.as_str()
    }

    /// The JSON of this variable.
    pub fn to_json(&self) -> (r: JsonValue)
        ensures
            r@ == new_variable_json(*self),
    {
        let mut m = Members::new();
        m.add_str("name", self.name.as_str());
        m.add_str("value", self.value.as_str());
        m.add_str("description", self.description.as_str());
        proof {
            assert(m@ =~= seq![
                ("name"@, jstr(self.name@)),
                ("value"@, jstr(self.value@)),
                ("description"@, jstr(self.description@)),
            ]);
        }
        m.into_object()
    }
}

/// The JSON list of variables to create.
pub fn write_new_variables(vs: &Vec<NewSystemVariable>) -> (r: JsonValue)
    ensures
        r@ == new_variables_json(vs@),
{
    let mut items: Vec<JsonValue> = Vec::new();
    let mut i: usize = 0;
    while i < vs.len()
        invariant
            0 <= i <= vs.len(),
            items@.len() == i,
            forall|k: int| 0 <= k < i ==> (#[trigger] items@[k])@ == new_variable_json(vs@[k]),
        decreases vs.len() - i,
    {
        items.push(vs[i].to_json());
        i = i + 1;
    }
    proof {
        assert(crate::request::items_view(items@) =~= Seq::new(
            vs@.len(),
            |k: int| new_variable_json(vs@[k]),
        ));
    }
    json_array(items)
}

/// A request that creates variables on a system.
#[derive(Clone, Debug)]
pub struct VariableCreateBuilder {
    pub base_url: String,
    pub sysplex: String,
    pub system: String,
    pub new_variables: Vec<NewSystemVariable>,
}

impl VariableCreateBuilder {
    /// A builder that creates `new_variables` on `sysplex.system`.
    pub fn new(
        base_url: String,
        sysplex: &str,
        system: &str,
        new_variables: Vec<NewSystemVariable>,
    ) -> (r: VariableCreateBuilder)
        ensures
            r.base_url == base_url,
            r.sysplex@ == sysplex@,
            r.system@ == system@,
            r.new_variables == new_variables,
    {
        VariableCreateBuilder {
            base_url,
            sysplex: String::from_str(sysplex),
            system: String::from_str(system),
            new_variables,
        }
    }

    /// The request that this builder describes.
    pub open spec fn spec_request(&self) -> RequestView {
        request_to(Method::Post, url_of(self.base_url@, system_path(self.sysplex@, self.system@))).with_json(
            Json::Object(seq![("system-variable-list"@, new_variables_json(self.new_variables@))]),
        )
    }

    /// The request: `POST` on the system with the list of variables.
    pub fn get_request(&self) -> (r: Request)
        ensures
            r@ == self.spec_request(),
    {
        let path = write_system_path(self.sysplex.as_str(), self.system.as_str());
        let mut r = Request::new(Method::Post, self.base_url.as_str(), &path);
        let mut m = Members::new();
        m.add("system-variable-list", write_new_variables(&self.new_variables));
        proof {
            assert(m@ =~= seq![("system-variable-list"@, new_variables_json(self.new_variables@))]);
        }
        r.set_json(m.into_object());
        r
    }
}

} // verus!
