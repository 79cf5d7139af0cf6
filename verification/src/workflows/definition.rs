//! Reading workflow definitions.

use vstd::prelude::*;

use crate::request::{opt_str_view, opt_view, request_to, url_of, Method, Request, RequestView};
use crate::text::{chars_of, extend_str};
use crate::workflows::{
    add_return_data, add_steps, add_variables, with_return_data, with_steps, with_variables,
    ReturnData,
};

verus! {

/// The properties of a workflow definition.
#[derive(Clone, Debug, PartialEq, Eq, Hash)]
pub struct WorkflowDefinition {
    pub default_name: Option<String>,
    pub description: String,
    pub id: String,
    pub version: String,
    pub vendor: String,
    pub hash: String,
    pub is_callable: Option<String>,
    pub contains_parallel_steps: bool,
    pub scope: String,
    pub jobs_output_directory: Option<String>,
    pub category: String,
    pub product_id: Option<String>,
    pub product_name: Option<String>,
    pub product_version: Option<String>,
    pub global_variable_group: Option<String>,
    pub is_instance_variable_without_prefix: bool,
    pub software_type: Option<String>,
}

impl WorkflowDefinition {
    /// The default name of workflows of this definition.
    pub fn default_name(&self) -> (r: Option<&str>)
        ensures
            opt_str_view(r) == opt_view(self.default_name),
    {
        match &self.default_name {
            Some(s) => Some(s.as_str()),
            None => None,
        }
    }

    /// The description.
    pub fn description(&self) -> (r: &str)
        ensures
            r@ == self.description@,
    {
        self.description.as_str()
    }

    /// The id.
    pub fn id(&self) -> (r: &str)
        ensures
            r@ == self.id@,
    {
        self.id.as_str()
    }

    /// The version.
    pub fn version(&self) -> (r: &str)
        ensures
            r@ == self.version@,
    {
        self.version.as_str()
    }

    /// The vendor.
    pub fn vendor(&self) -> (r: &str)
        ensures
            r@ == self.vendor@,
    {
        self.vendor.as_str()
    }

    /// The MD5 hash of the definition file.
    pub fn hash(&self) -> (r: &str)
        ensures
            r@ == self.hash@,
    {
        self.hash.as_str()
    }

    /// Whether other workflows may call this one.
    pub fn is_callable(&self) -> (r: Option<&str>)
        ensures
            opt_str_view(r) == opt_view(self.is_callable),
    {
        match &self.is_callable {
            Some(s) => Some(s.as_str()),
            None => None,
        }
    }

    /// The contains parallel steps.
    pub fn contains_parallel_steps(&self) -> (r: bool)
        ensures
            r == self.contains_parallel_steps,
    {
        self.contains_parallel_steps
    }

    /// The scope.
    pub fn scope(&self) -> (r: &str)
        ensures
            r@ == self.scope@,
    {
        self.scope.as_str()
    }

    /// The jobs output directory.
    pub fn jobs_output_directory(&self) -> (r: Option<&str>)
        ensures
            opt_str_view(r) == opt_view(self.jobs_output_directory),
    {
        match &self.jobs_output_directory {
            Some(s) => Some(s.as_str()),
            None => None,
        }
    }

    /// The category.
    pub fn category(&self) -> (r: &str)
        ensures
            r@ == self.category@,
    {
        self.category.as_str()
    }

    /// The product id.
    pub fn product_id(&self) -> (r: Option<&str>)
        ensures
            opt_str_view(r) == opt_view(self.product_id),
    {
        match &self.product_id {
            Some(s) => Some(s.as_str()),
            None => None,
        }
    }

    /// The product name.
    pub fn product_name(&self) -> (r: Option<&str>)
        ensures
            opt_str_view(r) == opt_view(self.product_name),
    {
        match &self.product_name {
            Some(s) => Some(s.as_str()),
            None => None,
        }
    }

    /// The product version.
    pub fn product_version(&self) -> (r: Option<&str>)
        ensures
            opt_str_view(r) == opt_view(self.product_version),
    {
        match &self.product_version {
            Some(s) => Some(s.as_str()),
            None => None,
        }
    }

    /// The global variable group.
    pub fn global_variable_group(&self) -> (r: Option<&str>)
        ensures
            opt_str_view(r) == opt_view(self.global_variable_group),
    {
        match &self.global_variable_group {
            Some(s) => Some(s.as_str()),
            None => None,
        }
    }

    /// The is instance variable without prefix.
    pub fn is_instance_variable_without_prefix(&self) -> (r: bool)
        ensures
            r == self.is_instance_variable_without_prefix,
    {
        self.is_instance_variable_without_prefix
    }

    /// The software type.
    pub fn software_type(&self) -> (r: Option<&str>)
        ensures
            opt_str_view(r) == opt_view(self.software_type),
    {
        match &self.software_type {
            Some(s) => Some(s.as_str()),
            None => None,
        }
    }
}

/// The properties of a workflow definition with its steps.
#[derive(Debug)]
pub struct WorkflowDefinitionSteps {
    pub inner: WorkflowDefinition,
    pub steps: Vec<StepCore>,
}

impl WorkflowDefinitionSteps {
    /// The properties of the definition.
    pub fn inner(&self) -> (r: &WorkflowDefinition)
        ensures
            r == &self.inner,
    {
        &self.inner
    }

    /// The steps of the definition.
    pub fn steps(&self) -> (r: &Vec<StepCore>)
        ensures
            r == &self.steps,
    {
        &self.steps
    }
}

/// The properties of a workflow definition with its steps and variables.
#[derive(Debug)]
pub struct WorkflowDefinitionStepsVariables {
    pub inner: WorkflowDefinitionSteps,
    pub variables: Vec<VariableDefinition>,
}

impl WorkflowDefinitionStepsVariables {
    /// The properties and steps of the definition.
    pub fn inner(&self) -> (r: &WorkflowDefinitionSteps)
        ensures
            r == &self.inner,
    {
        &self.inner
    }

    /// The variables of the definition.
    pub fn variables(&self) -> (r: &Vec<VariableDefinition>)
        ensures
            r == &self.variables,
    {
        &self.variables
    }
}

/// The properties of a workflow definition with its variables.
#[derive(Clone, Debug, PartialEq, Eq, Hash)]
pub struct WorkflowDefinitionVariables {
    pub inner: WorkflowDefinition,
    pub variables: Vec<VariableDefinition>,
}

impl WorkflowDefinitionVariables {
    /// The properties of the definition.
    pub fn inner(&self) -> (r: &WorkflowDefinition)
        ensures
            r == &self.inner,
    {
        &self.inner
    }

    /// The variables of the definition.
    pub fn variables(&self) -> (r: &Vec<VariableDefinition>)
        ensures
            r == &self.variables,
    {
        &self.variables
    }
}

/// A step of a workflow definition.
#[derive(Debug)]
pub struct StepCore {
    pub name: String,
    pub title: String,
    pub description: String,
    pub prereq_step: Option<Vec<String>>,
    pub optional: bool,
    pub steps: Option<Vec<StepCore>>,
}

impl StepCore {
    /// The name.
    pub fn name(&self) -> (r: &str)
        ensures
            r@ == self.name@,
    {
        self.name.as_str()
    }

    /// The title.
    pub fn title(&self) -> (r: &str)
        ensures
            r@ == self.title@,
    {
        self.title.as_str()
    }

    /// The description.
    pub fn description(&self) -> (r: &str)
        ensures
            r@ == self.description@,
    {
        self.description.as_str()
    }

    /// The prereq step.
    pub fn prereq_step(&self) -> (r: &Option<Vec<String>>)
        ensures
            r == &self.prereq_step,
    {
        &self.prereq_step
    }

    /// The optional.
    pub fn optional(&self) -> (r: bool)
        ensures
            r == self.optional,
    {
        self.optional
    }

    /// The steps inside this step.
    pub fn steps(&self) -> (r: &Option<Vec<StepCore>>)
        ensures
            r == &self.steps,
    {
        &self.steps
    }
}

/// A variable of a workflow definition.
#[derive(Clone, Debug, PartialEq, Eq, Hash)]
pub struct VariableDefinition {
    pub name: String,
    pub scope: String,
    pub short_description: String,
    pub category: String,
    pub choice: Option<Vec<String>>,
    pub decimal_places: Option<i32>,
    pub default: Option<String>,
    pub description: String,
    pub expose_to_user: bool,
    pub max_length: Option<i32>,
    pub max_value: Option<String>,
    pub min_length: Option<i32>,
    pub min_value: Option<String>,
    pub prompt_at_create: bool,
    pub regular_expression: Option<String>,
    pub required_at_create: bool,
    pub variable_type: String,
    pub validation_type: Option<String>,
    pub value_must_be_choice: Option<bool>,
    pub visibility: String,
}

impl VariableDefinition {
    /// The name.
    pub fn name(&self) -> (r: &str)
        ensures
            r@ == self.name@,
    {
        self.name.as_str()
    }

    /// The scope.
    pub fn scope(&self) -> (r: &str)
        ensures
            r@ == self.scope@,
    {
        self.scope.as_str()
    }

    /// The short description.
    pub fn short_description(&self) -> (r: &str)
        ensures
            r@ == self.short_description@,
    {
        self.short_description.as_str()
    }

    /// The category.
    pub fn category(&self) -> (r: &str)
        ensures
            r@ == self.category@,
    {
        self.category.as_str()
    }

    /// The choice.
    pub fn choice(&self) -> (r: &Option<Vec<String>>)
        ensures
            r == &self.choice,
    {
        &self.choice
    }

    /// The decimal places.
    pub fn decimal_places(&self) -> (r: Option<i32>)
        ensures
            r == self.decimal_places,
    {
        self.decimal_places
    }

    /// The default.
    pub fn default(&self) -> (r: Option<&str>)
        ensures
            opt_str_view(r) == opt_view(self.default),
    {
        match &self.default {
            Some(s) => Some(s.as_str()),
            None => None,
        }
    }

    /// The description.
    pub fn description(&self) -> (r: &str)
        ensures
            r@ == self.description@,
    {
        self.description.as_str()
    }

    /// The expose to user.
    pub fn expose_to_user(&self) -> (r: bool)
        ensures
            r == self.expose_to_user,
    {
        self.expose_to_user
    }

    /// The max length.
    pub fn max_length(&self) -> (r: Option<i32>)
        ensures
            r == self.max_length,
    {
        self.max_length
    }

    /// The max value.
    pub fn max_value(&self) -> (r: Option<&str>)
        ensures
            opt_str_view(r) == opt_view(self.max_value),
    {
        match &self.max_value {
            Some(s) => Some(s.as_str()),
            None => None,
        }
    }

    /// The min length.
    pub fn min_length(&self) -> (r: Option<i32>)
        ensures
            r == self.min_length,
    {
        self.min_length
    }

    /// The min value.
    pub fn min_value(&self) -> (r: Option<&str>)
        ensures
            opt_str_view(r) == opt_view(self.min_value),
    {
        match &self.min_value {
            Some(s) => Some(s.as_str()),
            None => None,
        }
    }

    /// The prompt at create.
    pub fn prompt_at_create(&self) -> (r: bool)
        ensures
            r == self.prompt_at_create,
    {
        self.prompt_at_create
    }

    /// The regular expression.
    pub fn regular_expression(&self) -> (r: Option<&str>)
        ensures
            opt_str_view(r) == opt_view(self.regular_expression),
    {
        match &self.regular_expression {
            Some(s) => Some(s.as_str()),
            None => None,
        }
    }

    /// The required at create.
    pub fn required_at_create(&self) -> (r: bool)
        ensures
            r == self.required_at_create,
    {
        self.required_at_create
    }

    /// The variable type.
    pub fn variable_type(&self) -> (r: &str)
        ensures
            r@ == self.variable_type@,
    {
        self.variable_type.as_str()
    }

    /// The validation type.
    pub fn validation_type(&self) -> (r: Option<&str>)
        ensures
            opt_str_view(r) == opt_view(self.validation_type),
    {
        match &self.validation_type {
            Some(s) => Some(s.as_str()),
            None => None,
        }
    }

    /// The value must be choice.
    pub fn value_must_be_choice(&self) -> (r: Option<bool>)
        ensures
            r == self.value_must_be_choice,
    {
        self.value_must_be_choice
    }

    /// The visibility.
    pub fn visibility(&self) -> (r: &str)
        ensures
            r@ == self.visibility@,
    {
        self.visibility.as_str()
    }
}

/// A request that reads a workflow definition from its file.
#[derive(Clone, Debug)]
pub struct WorkflowDefinitionBuilder {
    pub base_url: String,
    pub path: String,
    pub file_system: Option<String>,
    pub return_data: Option<ReturnData>,
}

impl WorkflowDefinitionBuilder {
    /// The builder as it is first made.
    pub open spec fn is_new(self, base_url: Seq<char>, path: Seq<char>) -> bool {
        &&& self.base_url@ == base_url
        &&& self.path@ == path
        &&& self.file_system is None
        &&& self.return_data is None
    }

    /// A builder that reads the definition in the file at `path`.
    pub fn new(base_url: String, path: &str) -> (r: WorkflowDefinitionBuilder)
        ensures
            r.is_new(base_url@, path@),
    {
        WorkflowDefinitionBuilder {
            base_url,
            path: String::from_str(path),
            file_system: None,
            return_data: None,
        }
    }

    /// Sets the system that holds the file.
    pub fn file_system(self, value: &str) -> (r: WorkflowDefinitionBuilder)
        ensures
            r.file_system matches Some(s) && s@ == value@,
            r == (WorkflowDefinitionBuilder { file_system: r.file_system, ..self }),
    {
        WorkflowDefinitionBuilder { file_system: Some(String::from_str(value)), ..self }
    }

    /// Asks for the steps too.
    pub fn steps(self) -> (r: WorkflowDefinitionBuilder)
        ensures
            r == (WorkflowDefinitionBuilder { return_data: with_steps(self.return_data), ..self }),
    {
        let d = add_steps(self.return_data);
        WorkflowDefinitionBuilder { return_data: d, ..self }
    }

    /// Asks for the variables too.
    pub fn variables(self) -> (r: WorkflowDefinitionBuilder)
        ensures
            r == (WorkflowDefinitionBuilder { return_data: with_variables(self.return_data), ..self }),
    {
        let d = add_variables(self.return_data);
        WorkflowDefinitionBuilder { return_data: d, ..self }
    }

    /// The request that this builder describes.
    pub open spec fn spec_request(&self) -> RequestView {
        with_return_data(
            request_to(
                Method::Get,
                url_of(
                    self.base_url@,
                    "/zosmf/workflow/rest/1.0/workflowDefinition?definitionFilePath="@ + self.path@,
                ),
            ).with_query_opt("workflowDefinitionFileSystem"@, opt_view(self.file_system)),
            self.return_data,
        )
    }

    /// The request: `GET` on the definition, with the system of the file and
    /// what is asked for as query parameters.
    pub fn get_request(&self) -> (r: Request)
        ensures
            r@ == self.spec_request(),
    {
        let mut path = chars_of("/zosmf/workflow/rest/1.0/workflowDefinition?definitionFilePath=");
        extend_str(&mut path, self.path.as_str());
        let mut r = Request::new(Method::Get, self.base_url.as_str(), &path);
        r.add_query_opt("workflowDefinitionFileSystem", &self.file_system);
        add_return_data(&mut r, self.return_data);
        r
    }
}

} // verus!
