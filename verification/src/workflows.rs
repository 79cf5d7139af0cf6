//! Workflows: creating, starting, cancelling, archiving and deleting them,
//! and reading their definitions and properties.

pub mod archive;
pub mod archived_workflows;
pub mod cancel;
pub mod create;
pub mod definition;
pub mod delete;
pub mod list;
pub mod properties;
pub mod start;

use vstd::prelude::*;

use crate::text::{chars_of, extend_str};

use self::archive::WorkflowArchiveBuilder;
use self::archived_workflows::ArchivedWorkflowListBuilder;
use self::cancel::WorkflowCancelBuilder;
use self::create::WorkflowCreateBuilder;
use self::definition::WorkflowDefinitionBuilder;
use self::delete::WorkflowDeleteBuilder;
use self::list::WorkflowListBuilder;
use self::properties::WorkflowPropertiesBuilder;
use self::start::WorkflowStartBuilder;

verus! {

/// Who may see a workflow.
#[derive(Clone, Copy, Debug, PartialEq, Eq, Structural, Hash)]
pub enum WorkflowAccess {
    Private,
    Public,
    Restricted,
}

impl WorkflowAccess {
    /// The name of this value in requests and answers.
    pub open spec fn text(self) -> Seq<char> {
        match self {
            WorkflowAccess::Private => "Private"@,
            WorkflowAccess::Public => "Public"@,
            WorkflowAccess::Restricted => "Restricted"@,
        }
    }

    /// The name of this value in requests and answers.
    pub fn as_str(&self) -> (r: &'static str)
        ensures
            r@ == self.text(),
    {
        match self {
            WorkflowAccess::Private => "Private",
            WorkflowAccess::Public => "Public",
            WorkflowAccess::Restricted => "Restricted",
        }
    }
}

/// The state of a workflow.
#[derive(Clone, Copy, Debug, PartialEq, Eq, Structural, Hash)]
pub enum WorkflowStatus {
    InProgress,
    Complete,
    AutomationInProgress,
    Canceled,
}

impl WorkflowStatus {
    /// The name of this value in requests and answers.
    pub open spec fn text(self) -> Seq<char> {
        match self {
            WorkflowStatus::InProgress => "in-progress"@,
            WorkflowStatus::Complete => "complete"@,
            WorkflowStatus::AutomationInProgress => "automation-in-progress"@,
            WorkflowStatus::Canceled => "canceled"@,
        }
    }

    /// The name of this value in requests and answers.
    pub fn as_str(&self) -> (r: &'static str)
        ensures
            r@ == self.text(),
    {
        match self {
            WorkflowStatus::InProgress => "in-progress",
            WorkflowStatus::Complete => "complete",
            WorkflowStatus::AutomationInProgress => "automation-in-progress",
            WorkflowStatus::Canceled => "canceled",
        }
    }
}

/// The collection that holds a workflow.
#[derive(Clone, Copy, Debug, PartialEq, Eq, Structural, Hash)]
pub enum WorkflowType {
    Workflows,
    ArchivedWorkflows,
}

impl WorkflowType {
    /// The name of this value in requests and answers.
    pub open spec fn text(self) -> Seq<char> {
        match self {
            WorkflowType::Workflows => "workflows"@,
            WorkflowType::ArchivedWorkflows => "archivedworkflows"@,
        }
    }

    /// The name of this value in requests and answers.
    pub fn as_str(&self) -> (r: &'static str)
        ensures
            r@ == self.text(),
    {
        match self {
            WorkflowType::Workflows => "workflows",
            WorkflowType::ArchivedWorkflows => "archivedworkflows",
        }
    }
}

/// What a description of a workflow returns besides its properties.
#[derive(Clone, Copy, Debug, PartialEq, Eq, Structural, Hash)]
pub enum ReturnData {
    Steps,
    StepsVariables,
    Variables,
}

impl ReturnData {
    /// The name of this value in requests and answers.
    pub open spec fn text(self) -> Seq<char> {
        match self {
            ReturnData::Steps => "steps"@,
            ReturnData::StepsVariables => "steps,variables"@,
            ReturnData::Variables => "variables"@,
        }
    }

    /// The name of this value in requests and answers.
    pub fn as_str(&self) -> (r: &'static str)
        ensures
            r@ == self.text(),
    {
        match self {
            ReturnData::Steps => "steps",
            ReturnData::StepsVariables => "steps,variables",
            ReturnData::Variables => "variables",
        }
    }
}

/// What a description returns once its steps are asked for too.
pub open spec fn with_steps(r: Option<ReturnData>) -> Option<ReturnData> {
    match r {
        Some(ReturnData::Variables) | Some(ReturnData::StepsVariables) => Some(ReturnData::StepsVariables),
        _ => Some(ReturnData::Steps),
    }
}

/// What a description returns once its variables are asked for too.
pub open spec fn with_variables(r: Option<ReturnData>) -> Option<ReturnData> {
    match r {
        Some(ReturnData::Steps) | Some(ReturnData::StepsVariables) => Some(ReturnData::StepsVariables),
        _ => Some(ReturnData::Variables),
    }
}

/// Asks for the steps too.
pub fn add_steps(r: Option<ReturnData>) -> (s: Option<ReturnData>)
    ensures
        s == with_steps(r),
{
    match r {
        Some(ReturnData::Variables) | Some(ReturnData::StepsVariables) => Some(ReturnData::StepsVariables),
        _ => Some(ReturnData::Steps),
    }
}

/// Asks for the variables too.
pub fn add_variables(r: Option<ReturnData>) -> (s: Option<ReturnData>)
    ensures
        s == with_variables(r),
{
    match r {
        Some(ReturnData::Steps) | Some(ReturnData::StepsVariables) => Some(ReturnData::StepsVariables),
        _ => Some(ReturnData::Variables),
    }
}

/// Asking for the steps and for the variables gives the same description in
/// either order, and asking twice for either is asking once.
pub proof fn lemma_return_data_order(r: Option<ReturnData>)
    ensures
        with_steps(with_variables(r)) == with_variables(with_steps(r)),
        with_steps(with_variables(r)) == Some(ReturnData::StepsVariables),
        with_steps(with_steps(r)) == with_steps(r),
        with_variables(with_variables(r)) == with_variables(r),
{
}

/// The request with the `returnData` parameter, when something besides the
/// properties is asked for.
pub open spec fn with_return_data(
    r: crate::request::RequestView,
    d: Option<ReturnData>,
) -> crate::request::RequestView {
    match d {
        Some(d) => r.with_query("returnData"@, d.text()),
        None => r,
    }
}

/// Adds the `returnData` parameter, when something besides the properties is
/// asked for.
pub fn add_return_data(r: &mut crate::request::Request, d: Option<ReturnData>)
    ensures
        final(r)@ == with_return_data(old(r)@, d),
{
    match d {
        Some(d) => r.add_query("returnData", String::from_str(d.as_str())),
        None => {},
    }
}

/// The path of a workflow.
pub open spec fn workflow_path(key: Seq<char>) -> Seq<char> {
    "/zosmf/workflow/rest/1.0/workflows/"@ + key
}

/// The path of an operation on a workflow.
pub open spec fn operation_path(key: Seq<char>, operation: Seq<char>) -> Seq<char> {
    workflow_path(key) + "/operations/"@ + operation
}

/// The path of an operation on a workflow.
pub fn write_operation_path(key: &str, operation: &str) -> (r: Vec<char>)
    ensures
        r@ == operation_path(key@, operation@),
{
    let mut v = chars_of("/zosmf/workflow/rest/1.0/workflows/");
    extend_str(&mut v, key);
    extend_str(&mut v, "/operations/");
    extend_str(&mut v, operation);
    v
}

/// The requests on the workflows of one z/OSMF server.
#[derive(Clone, Debug)]
pub struct WorkflowsClient {
    pub base_url: String,
}

impl WorkflowsClient {
    /// A client for the server at `base_url`.
    pub fn new(base_url: String) -> (r: WorkflowsClient)
        ensures
            r.base_url == base_url,
    {
        WorkflowsClient { base_url }
    }

    /// Creates a workflow.
    pub fn create(
        &self,
        name: &str,
        definition_file: &str,
        system: &str,
        owner: &str,
    ) -> (r: WorkflowCreateBuilder)
        ensures
            r.is_new(self.base_url@, name@, definition_file@, system@, owner@),
    {
        WorkflowCreateBuilder::new(self.base_url.clone(), name, definition_file, system, owner)
    }

    /// Reads the properties of a workflow.
    pub fn properties(&self, key: &str) -> (r: WorkflowPropertiesBuilder)
        ensures
            r.is_new(self.base_url@, WorkflowType::Workflows, key@),
    {
        WorkflowPropertiesBuilder::new(self.base_url.clone(), WorkflowType::Workflows, key)
    }

    /// Lists workflows.
    pub fn list(&self) -> (r: WorkflowListBuilder)
        ensures
            r.is_new(self.base_url@),
    {
        WorkflowListBuilder::new(self.base_url.clone())
    }

    /// Starts a workflow.
    pub fn start(&self, key: &str) -> (r: WorkflowStartBuilder)
        ensures
            r.is_new(self.base_url@, key@),
    {
        WorkflowStartBuilder::new(self.base_url.clone(), key)
    }

    /// Cancels a workflow.
    pub fn cancel(&self, key: &str) -> (r: WorkflowCancelBuilder)
        ensures
            r.is_new(self.base_url@, key@),
    {
        WorkflowCancelBuilder::new(self.base_url.clone(), key)
    }

    /// Deletes a workflow.
    pub fn delete(&self, key: &str) -> (r: WorkflowDeleteBuilder)
        ensures
            r.is_new(self.base_url@, WorkflowType::Workflows, key@),
    {
        WorkflowDeleteBuilder::new(self.base_url.clone(), WorkflowType::Workflows, key)
    }

    /// Reads the definition of a workflow from its file.
    pub fn definition(&self, path: &str) -> (r: WorkflowDefinitionBuilder)
        ensures
            r.is_new(self.base_url@, path@),
    {
        WorkflowDefinitionBuilder::new(self.base_url.clone(), path)
    }

    /// Archives workflows; this client does not send the request yet (see
    /// [`WorkflowArchiveBuilder`]).
    pub fn archive(&self) {
    }

    /// Lists archived workflows; this client does not send the request yet
    /// (see [`ArchivedWorkflowListBuilder`]).
    pub fn list_archived(&self) {
    }

    /// Reads the properties of archived workflows; this client does not send
    /// the request yet.
    pub fn properties_archived(&self) {
    }

    /// Deletes an archived workflow.
    pub fn delete_archived(&self, key: &str) -> (r: WorkflowDeleteBuilder)
        ensures
            r.is_new(self.base_url@, WorkflowType::ArchivedWorkflows, key@),
    {
        WorkflowDeleteBuilder::new(self.base_url.clone(), WorkflowType::ArchivedWorkflows, key)
    }
}

} // verus!
