//! Reading the properties of workflows.

use vstd::prelude::*;

use crate::jobs::{JobStatus, JobType};
use crate::request::{opt_str_view, opt_view, request_to, url_of, Method, Request, RequestView};
use crate::workflows::{
    add_return_data, add_steps, add_variables, with_return_data, with_steps, with_variables,
    ReturnData, WorkflowAccess, WorkflowStatus, WorkflowType,
};
use crate::workflows::delete::{typed_workflow_path, write_typed_workflow_path};

verus! {

/// The state of the automation of a workflow.
#[derive(Clone, Debug, PartialEq, Eq, Hash)]
pub struct WorkflowAutomationStatus {
    pub start_user: String,
    pub started_time: u64,
    pub stopped_time: Option<u64>,
    pub current_step_name: Option<String>,
    pub current_step_number: Option<String>,
    pub current_step_title: Option<String>,
    pub message_id: Option<String>,
    pub message_text: Option<String>,
}

impl WorkflowAutomationStatus {
    /// The start user.
    pub fn start_user(&self) -> (r: &str)
        ensures
            r@ == self.start_user@,
    {
        self.start_user.as_str()
    }

    /// The started time.
    pub fn started_time(&self) -> (r: u64)
        ensures
            r == self.started_time,
    {
        self.started_time
    }

    /// The stopped time.
    pub fn stopped_time(&self) -> (r: Option<u64>)
        ensures
            r == self.stopped_time,
    {
        self.stopped_time
    }

    /// The current step name.
    pub fn current_step_name(&self) -> (r: Option<&str>)
        ensures
            opt_str_view(r) == opt_view(self.current_step_name),
    {
        match &self.current_step_name {
            Some(s) => Some(s.as_str()),
            None => None,
        }
    }

    /// The current step number.
    pub fn current_step_number(&self) -> (r: Option<&str>)
        ensures
            opt_str_view(r) == opt_view(self.current_step_number),
    {
        match &self.current_step_number {
            Some(s) => Some(s.as_str()),
            None => None,
        }
    }

    /// The current step title.
    pub fn current_step_title(&self) -> (r: Option<&str>)
        ensures
            opt_str_view(r) == opt_view(self.current_step_title),
    {
        match &self.current_step_title {
            Some(s) => Some(s.as_str()),
            None => None,
        }
    }

    /// The message id.
    pub fn message_id(&self) -> (r: Option<&str>)
        ensures
            opt_str_view(r) == opt_view(self.message_id),
    {
        match &self.message_id {
            Some(s) => Some(s.as_str()),
            None => None,
        }
    }

    /// The message text.
    pub fn message_text(&self) -> (r: Option<&str>)
        ensures
            opt_str_view(r) == opt_view(self.message_text),
    {
        match &self.message_text {
            Some(s) => Some(s.as_str()),
            None => None,
        }
    }
}

/// The properties of a workflow.
#[derive(Clone, Debug, PartialEq, Eq, Hash)]
pub struct WorkflowProperties {
    pub name: String,
    pub key: String,
    pub description: String,
    pub id: String,
    pub version: String,
    pub definition_file_hash: String,
    pub vendor: String,
    pub owner: String,
    pub archive_saf_id: Option<String>,
    pub system: String,
    pub jobs_output_directory: Option<String>,
    pub category: String,
    pub product_id: Option<String>,
    pub product_name: Option<String>,
    pub product_version: Option<String>,
    pub percent_complete: i32,
    pub is_callable: Option<String>,
    pub contains_parallel_steps: bool,
    pub scope: WorkflowScope,
    pub status: WorkflowStatus,
    pub delete_completed_jobs: bool,
    pub automation_status: Option<WorkflowAutomationStatus>,
    pub auto_delete_on_completion: Option<bool>,
    pub access: WorkflowAccess,
    pub account_info: Option<String>,
    pub job_statement: Option<String>,
    pub template_id: Option<String>,
    pub action_id: Option<String>,
    pub registry_id: Option<String>,
    pub parent_registry_id: Option<String>,
    pub domain_id: Option<String>,
    pub tenant_id: Option<String>,
    pub software_service_instance_name: Option<String>,
    pub template_name: Option<String>,
    pub global_variable_group: Option<String>,
    pub is_instance_variable_without_prefix: bool,
    pub software_type: Option<String>,
}

impl WorkflowProperties {
    /// The workflow's name.
    pub fn name(&self) -> (r: &str)
        ensures
            r@ == self.name@,
    {
        self.name.as_str()
    }

    /// The workflow's key.
    pub fn key(&self) -> (r: &str)
        ensures
            r@ == self.key@,
    {
        self.key.as_str()
    }

    /// The description.
    pub fn description(&self) -> (r: &str)
        ensures
            r@ == self.description@,
    {
        self.description.as_str()
    }

    /// The id.
    pub fn id(&self) -> (r: &str)
        ensures
            r@ == self.id@,
    {
        self.id.as_str()
    }

    /// The version.
    pub fn version(&self) -> (r: &str)
        ensures
            r@ == self.version@,
    {
        self.version.as_str()
    }

    /// The MD5 hash of the definition file.
    pub fn definition_file_hash(&self) -> (r: &str)
        ensures
            r@ == self.definition_file_hash@,
    {
        self.definition_file_hash.as_str()
    }

    /// The vendor.
    pub fn vendor(&self) -> (r: &str)
        ensures
            r@ == self.vendor@,
    {
        self.vendor.as_str()
    }

    /// The owner.
    pub fn owner(&self) -> (r: &str)
        ensures
            r@ == self.owner@,
    {
        self.owner.as_str()
    }

    /// The archive saf id.
    pub fn archive_saf_id(&self) -> (r: Option<&str>)
        ensures
            opt_str_view(r) == opt_view(self.archive_saf_id),
    {
        match &self.archive_saf_id {
            Some(s) => Some(s.as_str()),
            None => None,
        }
    }

    /// The system.
    pub fn system(&self) -> (r: &str)
        ensures
            r@ == self.system@,
    {
        self.system.as_str()
    }

    /// The jobs output directory.
    pub fn jobs_output_directory(&self) -> (r: Option<&str>)
        ensures
            opt_str_view(r) == opt_view(self.jobs_output_directory),
    {
        match &self.jobs_output_directory {
            Some(s) => Some(s.as_str()),
            None => None,
        }
    }

    /// The category.
    pub fn category(&self) -> (r: &str)
        ensures
            r@ == self.category@,
    {
        self.category.as_str()
    }

    /// The product id.
    pub fn product_id(&self) -> (r: Option<&str>)
        ensures
            opt_str_view(r) == opt_view(self.product_id),
    {
        match &self.product_id {
            Some(s) => Some(s.as_str()),
            None => None,
        }
    }

    /// The product name.
    pub fn product_name(&self) -> (r: Option<&str>)
        ensures
            opt_str_view(r) == opt_view(self.product_name),
    {
        match &self.product_name {
            Some(s) => Some(s.as_str()),
            None => None,
        }
    }

    /// The product version.
    pub fn product_version(&self) -> (r: Option<&str>)
        ensures
            opt_str_view(r) == opt_view(self.product_version),
    {
        match &self.product_version {
            Some(s) => Some(s.as_str()),
            None => None,
        }
    }

    /// The percent complete.
    pub fn percent_complete(&self) -> (r: i32)
        ensures
            r == self.percent_complete,
    {
        self.percent_complete
    }

    /// The is callable.
    pub fn is_callable(&self) -> (r: Option<&str>)
        ensures
            opt_str_view(r) == opt_view(self.is_callable),
    {
        match &self.is_callable {
            Some(s) => Some(s.as_str()),
            None => None,
        }
    }

    /// The contains parallel steps.
    pub fn contains_parallel_steps(&self) -> (r: bool)
        ensures
            r == self.contains_parallel_steps,
    {
        self.contains_parallel_steps
    }

    /// The scope.
    pub fn scope(&self) -> (r: WorkflowScope)
        ensures
            r == self.scope,
    {
        self.scope
    }

    /// The status.
    pub fn status(&self) -> (r: WorkflowStatus)
        ensures
            r == self.status,
    {
        self.status
    }

    /// The delete completed jobs.
    pub fn delete_completed_jobs(&self) -> (r: bool)
        ensures
            r == self.delete_completed_jobs,
    {
        self.delete_completed_jobs
    }

    /// The automation status.
    pub fn automation_status(&self) -> (r: &Option<WorkflowAutomationStatus>)
        ensures
            r == &self.automation_status,
    {
        &self.automation_status
    }

    /// The auto delete on completion.
    pub fn auto_delete_on_completion(&self) -> (r: Option<bool>)
        ensures
            r == self.auto_delete_on_completion,
    {
        self.auto_delete_on_completion
    }

    /// The access.
    pub fn access(&self) -> (r: WorkflowAccess)
        ensures
            r == self.access,
    {
        self.access
    }

    /// The account info.
    pub fn account_info(&self) -> (r: Option<&str>)
        ensures
            opt_str_view(r) == opt_view(self.account_info),
    {
        match &self.account_info {
            Some(s) => Some(s.as_str()),
            None => None,
        }
    }

    /// The job statement.
    pub fn job_statement(&self) -> (r: Option<&str>)
        ensures
            opt_str_view(r) == opt_view(self.job_statement),
    {
        match &self.job_statement {
            Some(s) => Some(s.as_str()),
            None => None,
        }
    }

    /// The template id.
    pub fn template_id(&self) -> (r: Option<&str>)
        ensures
            opt_str_view(r) == opt_view(self.template_id),
    {
        match &self.template_id {
            Some(s) => Some(s.as_str()),
            None => None,
        }
    }

    /// The action id.
    pub fn action_id(&self) -> (r: Option<&str>)
        ensures
            opt_str_view(r) == opt_view(self.action_id),
    {
        match &self.action_id {
            Some(s) => Some(s.as_str()),
            None => None,
        }
    }

    /// The registry id.
    pub fn registry_id(&self) -> (r: Option<&str>)
        ensures
            opt_str_view(r) == opt_view(self.registry_id),
    {
        match &self.registry_id {
            Some(s) => Some(s.as_str()),
            None => None,
        }
    }

    /// The parent registry id.
    pub fn parent_registry_id(&self) -> (r: Option<&str>)
        ensures
            opt_str_view(r) == opt_view(self.parent_registry_id),
    {
        match &self.parent_registry_id {
            Some(s) => Some(s.as_str()),
            None => None,
        }
    }

    /// The domain id.
    pub fn domain_id(&self) -> (r: Option<&str>)
        ensures
            opt_str_view(r) == opt_view(self.domain_id),
    {
        match &self.domain_id {
            Some(s) => Some(s.as_str()),
            None => None,
        }
    }

    /// The tenant id.
    pub fn tenant_id(&self) -> (r: Option<&str>)
        ensures
            opt_str_view(r) == opt_view(self.tenant_id),
    {
        match &self.tenant_id {
            Some(s) => Some(s.as_str()),
            None => None,
        }
    }

    /// The software service instance name.
    pub fn software_service_instance_name(&self) -> (r: Option<&str>)
        ensures
            opt_str_view(r) == opt_view(self.software_service_instance_name),
    {
        match &self.software_service_instance_name {
            Some(s) => Some(s.as_str()),
            None => None,
        }
    }

    /// The template name.
    pub fn template_name(&self) -> (r: Option<&str>)
        ensures
            opt_str_view(r) == opt_view(self.template_name),
    {
        match &self.template_name {
            Some(s) => Some(s.as_str()),
            None => None,
        }
    }

    /// The global variable group.
    pub fn global_variable_group(&self) -> (r: Option<&str>)
        ensures
            opt_str_view(r) == opt_view(self.global_variable_group),
    {
        match &self.global_variable_group {
            Some(s) => Some(s.as_str()),
            None => None,
        }
    }

    /// The is instance variable without prefix.
    pub fn is_instance_variable_without_prefix(&self) -> (r: bool)
        ensures
            r == self.is_instance_variable_without_prefix,
    {
        self.is_instance_variable_without_prefix
    }

    /// The software type.
    pub fn software_type(&self) -> (r: Option<&str>)
        ensures
            opt_str_view(r) == opt_view(self.software_type),
    {
        match &self.software_type {
            Some(s) => Some(s.as_str()),
            None => None,
        }
    }
}

/// The properties of a workflow with its steps.
#[derive(Debug)]
pub struct WorkflowPropertiesSteps {
    pub properties: WorkflowProperties,
    pub steps: Vec<WorkflowStep>,
}

impl WorkflowPropertiesSteps {
    /// The properties of the workflow.
    pub fn properties(&self) -> (r: &WorkflowProperties)
        ensures
            r == &self.properties,
    {
        &self.properties
    }

    /// The steps of the workflow.
    pub fn steps(&self) -> (r: &Vec<WorkflowStep>)
        ensures
            r == &self.steps,
    {
        &self.steps
    }
}

/// The properties of a workflow with its steps and variables.
#[derive(Debug)]
pub struct WorkflowPropertiesStepsVariables {
    pub properties: WorkflowProperties,
    pub steps: Vec<WorkflowStep>,
    pub variables: Vec<WorkflowVariableInfo>,
}

impl WorkflowPropertiesStepsVariables {
    /// The properties of the workflow.
    pub fn properties(&self) -> (r: &WorkflowProperties)
        ensures
            r == &self.properties,
    {
        &self.properties
    }

    /// The steps of the workflow.
    pub fn steps(&self) -> (r: &Vec<WorkflowStep>)
        ensures
            r == &self.steps,
    {
        &self.steps
    }

    /// The variables of the workflow.
    pub fn variables(&self) -> (r: &Vec<WorkflowVariableInfo>)
        ensures
            r == &self.variables,
    {
        &self.variables
    }
}

/// The properties of a workflow with its variables.
#[derive(Clone, Debug, PartialEq, Eq, Hash)]
pub struct WorkflowPropertiesVariables {
    pub properties: WorkflowProperties,
    pub variables: Vec<WorkflowVariableInfo>,
}

impl WorkflowPropertiesVariables {
    /// The properties of the workflow.
    pub fn properties(&self) -> (r: &WorkflowProperties)
        ensures
            r == &self.properties,
    {
        &self.properties
    }

    /// The variables of the workflow.
    pub fn variables(&self) -> (r: &Vec<WorkflowVariableInfo>)
        ensures
            r == &self.variables,
    {
        &self.variables
    }
}

/// Where a workflow may run.
#[derive(Clone, Copy, Debug, PartialEq, Eq, Structural, Hash)]
pub enum WorkflowScope {
    System,
    Sysplex,
    Nothing,
}

impl WorkflowScope {
    /// The name of this value in requests and answers.
    pub open spec fn text(self) -> Seq<char> {
        match self {
            WorkflowScope::System => "system"@,
            WorkflowScope::Sysplex => "sysplex"@,
            WorkflowScope::Nothing => "none"@,
        }
    }

    /// The name of this value in requests and answers.
    pub fn as_str(&self) -> (r: &'static str)
        ensures
            r@ == self.text(),
    {
        match self {
            WorkflowScope::System => "system",
            WorkflowScope::Sysplex => "sysplex",
            WorkflowScope::Nothing => "none",
        }
    }
}

/// A step of a workflow: one that calls another workflow, one that sends a
/// REST request, or one made from a template.
#[derive(Debug)]
pub enum WorkflowStep {
    Calling(WorkflowStepCalling),
    Rest(WorkflowStepRest),
    Template(WorkflowStepTemplate),
}

/// A step that calls another workflow.
#[derive(Debug)]
pub struct WorkflowStepCalling {
    pub common: WorkflowStepNonRest,
    pub called_instance_key: Option<String>,
    pub called_instance_scope: Option<WorkflowScope>,
    pub called_instance_url: Option<String>,
    pub called_workflow_id: Option<String>,
    pub called_workflow_version: Option<String>,
    pub called_workflow_hash: Option<String>,
    pub called_workflow_description: String,
    pub called_workflow_definition_file: Option<String>,
}

impl WorkflowStepCalling {
    /// What the step shares with the steps that send no REST request.
    pub fn common(&self) -> (r: &WorkflowStepNonRest)
        ensures
            r == &self.common,
    {
        &self.common
    }

    /// The called instance key.
    pub fn called_instance_key(&self) -> (r: Option<&str>)
        ensures
            opt_str_view(r) == opt_view(self.called_instance_key),
    {
        match &self.called_instance_key {
            Some(s) => Some(s.as_str()),
            None => None,
        }
    }

    /// The called instance scope.
    pub fn called_instance_scope(&self) -> (r: Option<WorkflowScope>)
        ensures
            r == self.called_instance_scope,
    {
        self.called_instance_scope
    }

    /// The called instance url.
    pub fn called_instance_url(&self) -> (r: Option<&str>)
        ensures
            opt_str_view(r) == opt_view(self.called_instance_url),
    {
        match &self.called_instance_url {
            Some(s) => Some(s.as_str()),
            None => None,
        }
    }

    /// The called workflow id.
    pub fn called_workflow_id(&self) -> (r: Option<&str>)
        ensures
            opt_str_view(r) == opt_view(self.called_workflow_id),
    {
        match &self.called_workflow_id {
            Some(s) => Some(s.as_str()),
            None => None,
        }
    }

    /// The called workflow version.
    pub fn called_workflow_version(&self) -> (r: Option<&str>)
        ensures
            opt_str_view(r) == opt_view(self.called_workflow_version),
    {
        match &self.called_workflow_version {
            Some(s) => Some(s.as_str()),
            None => None,
        }
    }

    /// The MD5 hash of the called workflow.
    pub fn called_workflow_hash(&self) -> (r: Option<&str>)
        ensures
            opt_str_view(r) == opt_view(self.called_workflow_hash),
    {
        match &self.called_workflow_hash {
            Some(s) => Some(s.as_str()),
            None => None,
        }
    }

    /// The called workflow description.
    pub fn called_workflow_description(&self) -> (r: &str)
        ensures
            r@ == self.called_workflow_description@,
    {
        self.called_workflow_description.as_str()
    }

    /// The called workflow definition file.
    pub fn called_workflow_definition_file(&self) -> (r: Option<&str>)
        ensures
            opt_str_view(r) == opt_view(self.called_workflow_definition_file),
    {
        match &self.called_workflow_definition_file {
            Some(s) => Some(s.as_str()),
            None => None,
        }
    }
}

/// What every step of a workflow has.
#[derive(Debug)]
pub struct WorkflowStepCore {
    pub name: String,
    pub auto_enable: bool,
    pub description: String,
    pub is_rest_step: bool,
    pub optional: bool,
    pub prereq_step: Option<Vec<String>>,
    pub run_as_user: Option<String>,
    pub run_as_user_dynamic: Option<bool>,
    pub state: WorkflowStepStatus,
    pub step_number: String,
    pub steps: Option<Vec<WorkflowStep>>,
    pub title: String,
    pub user_defined: bool,
}

impl WorkflowStepCore {
    /// The name.
    pub fn name(&self) -> (r: &str)
        ensures
            r@ == self.name@,
    {
        self.name.as_str()
    }

    /// The auto enable.
    pub fn auto_enable(&self) -> (r: bool)
        ensures
            r == self.auto_enable,
    {
        self.auto_enable
    }

    /// The description.
    pub fn description(&self) -> (r: &str)
        ensures
            r@ == self.description@,
    {
        self.description.as_str()
    }

    /// The is rest step.
    pub fn is_rest_step(&self) -> (r: bool)
        ensures
            r == self.is_rest_step,
    {
        self.is_rest_step
    }

    /// The optional.
    pub fn optional(&self) -> (r: bool)
        ensures
            r == self.optional,
    {
        self.optional
    }

    /// The prereq step.
    pub fn prereq_step(&self) -> (r: &Option<Vec<String>>)
        ensures
            r == &self.prereq_step,
    {
        &self.prereq_step
    }

    /// The run as user.
    pub fn run_as_user(&self) -> (r: Option<&str>)
        ensures
            opt_str_view(r) == opt_view(self.run_as_user),
    {
        match &self.run_as_user {
            Some(s) => Some(s.as_str()),
            None => None,
        }
    }

    /// The run as user dynamic.
    pub fn run_as_user_dynamic(&self) -> (r: Option<bool>)
        ensures
            r == self.run_as_user_dynamic,
    {
        self.run_as_user_dynamic
    }

    /// The state.
    pub fn state(&self) -> (r: WorkflowStepStatus)
        ensures
            r == self.state,
    {
        self.state
    }

    /// The step number.
    pub fn step_number(&self) -> (r: &str)
        ensures
            r@ == self.step_number@,
    {
        self.step_number.as_str()
    }

    /// The steps inside this step.
    pub fn steps(&self) -> (r: &Option<Vec<WorkflowStep>>)
        ensures
            r == &self.steps,
    {
        &self.steps
    }

    /// The title.
    pub fn title(&self) -> (r: &str)
        ensures
            r@ == self.title@,
    {
        self.title.as_str()
    }

    /// The user defined.
    pub fn user_defined(&self) -> (r: bool)
        ensures
            r == self.user_defined,
    {
        self.user_defined
    }
}

/// The job that a step ran.
#[derive(Clone, Debug, PartialEq, Eq, Hash)]
pub struct WorkflowStepJobInfo {
    pub status: WorkflowStepJobInfoStatus,
    pub files: Option<Vec<WorkflowStepJobInfoFile>>,
}

impl WorkflowStepJobInfo {
    /// The state of the job.
    pub fn status(&self) -> (r: &WorkflowStepJobInfoStatus)
        ensures
            r == &self.status,
    {
        &self.status
    }

    /// The files of the job's output.
    pub fn files(&self) -> (r: &Option<Vec<WorkflowStepJobInfoFile>>)
        ensures
            r == &self.files,
    {
        &self.files
    }
}

/// A file of the output of a step's job.
#[derive(Clone, Debug, PartialEq, Eq, Hash)]
pub struct WorkflowStepJobInfoFile {
    pub dd_name: String,
    pub step_name: String,
    pub id: i32,
    pub record_count: i32,
    pub class: String,
    pub byte_count: i32,
    pub proc_step: Option<String>,
}

impl WorkflowStepJobInfoFile {
    /// The DD name of the file.
    pub fn dd_name(&self) -> (r: &str)
        ensures
            r@ == self.dd_name@,
    {
        self.dd_name.as_str()
    }

    /// The step name.
    pub fn step_name(&self) -> (r: &str)
        ensures
            r@ == self.step_name@,
    {
        self.step_name.as_str()
    }

    /// The id.
    pub fn id(&self) -> (r: i32)
        ensures
            r == self.id,
    {
        self.id
    }

    /// The record count.
    pub fn record_count(&self) -> (r: i32)
        ensures
            r == self.record_count,
    {
        self.record_count
    }

    /// The class.
    pub fn class(&self) -> (r: &str)
        ensures
            r@ == self.class@,
    {
        self.class.as_str()
    }

    /// The byte count.
    pub fn byte_count(&self) -> (r: i32)
        ensures
            r == self.byte_count,
    {
        self.byte_count
    }

    /// The proc step.
    pub fn proc_step(&self) -> (r: Option<&str>)
        ensures
            opt_str_view(r) == opt_view(self.proc_step),
    {
        match &self.proc_step {
            Some(s) => Some(s.as_str()),
            None => None,
        }
    }
}

/// The state of a step's job.
#[derive(Clone, Debug, PartialEq, Eq, Hash)]
pub struct WorkflowStepJobInfoStatus {
    pub return_code: Option<String>,
    pub name: String,
    pub status: Option<JobStatus>,
    pub owner: String,
    pub subsystem: Option<String>,
    pub class: String,
    pub job_type: JobType,
    pub id: String,
}

impl WorkflowStepJobInfoStatus {
    /// The return code.
    pub fn return_code(&self) -> (r: Option<&str>)
        ensures
            opt_str_view(r) == opt_view(self.return_code),
    {
        match &self.return_code {
            Some(s) => Some(s.as_str()),
            None => None,
        }
    }

    /// The job name.
    pub fn name(&self) -> (r: &str)
        ensures
            r@ == self.name@,
    {
        self.name.as_str()
    }

    /// The status.
    pub fn status(&self) -> (r: Option<JobStatus>)
        ensures
            r == self.status,
    {
        self.status
    }

    /// The owner.
    pub fn owner(&self) -> (r: &str)
        ensures
            r@ == self.owner@,
    {
        self.owner.as_str()
    }

    /// The subsystem.
    pub fn subsystem(&self) -> (r: Option<&str>)
        ensures
            opt_str_view(r) == opt_view(self.subsystem),
    {
        match &self.subsystem {
            Some(s) => Some(s.as_str()),
            None => None,
        }
    }

    /// The class.
    pub fn class(&self) -> (r: &str)
        ensures
            r@ == self.class@,
    {
        self.class.as_str()
    }

    /// The job type.
    pub fn job_type(&self) -> (r: JobType)
        ensures
            r == self.job_type,
    {
        self.job_type
    }

    /// The job id.
    pub fn id(&self) -> (r: &str)
        ensures
            r@ == self.id@,
    {
        self.id.as_str()
    }
}

/// What the steps that send no REST request have.
#[derive(Debug)]
pub struct WorkflowStepNonRest {
    pub common: WorkflowStepCore,
    pub assignees: Option<String>,
    pub has_called_workflow: bool,
    pub is_condition_step: Option<bool>,
    pub owner: Option<String>,
    pub skills: Option<String>,
    pub weight: String,
}

impl WorkflowStepNonRest {
    /// What every step has.
    pub fn common(&self) -> (r: &WorkflowStepCore)
        ensures
            r == &self.common,
    {
        &self.common
    }

    /// The assignees.
    pub fn assignees(&self) -> (r: Option<&str>)
        ensures
            opt_str_view(r) == opt_view(self.assignees),
    {
        match &self.assignees {
            Some(s) => Some(s.as_str()),
            None => None,
        }
    }

    /// The has called workflow.
    pub fn has_called_workflow(&self) -> (r: bool)
        ensures
            r == self.has_called_workflow,
    {
        self.has_called_workflow
    }

    /// The is condition step.
    pub fn is_condition_step(&self) -> (r: Option<bool>)
        ensures
            r == self.is_condition_step,
    {
        self.is_condition_step
    }

    /// The owner.
    pub fn owner(&self) -> (r: Option<&str>)
        ensures
            opt_str_view(r) == opt_view(self.owner),
    {
        match &self.owner {
            Some(s) => Some(s.as_str()),
            None => None,
        }
    }

    /// The skills.
    pub fn skills(&self) -> (r: Option<&str>)
        ensures
            opt_str_view(r) == opt_view(self.skills),
    {
        match &self.skills {
            Some(s) => Some(s.as_str()),
            None => None,
        }
    }

    /// The weight.
    pub fn weight(&self) -> (r: &str)
        ensures
            r@ == self.weight@,
    {
        self.weight.as_str()
    }
}

/// A step that sends a REST request.
#[derive(Debug)]
pub struct WorkflowStepRest {
    pub common: WorkflowStepCore,
    pub actual_status_code: String,
    pub expected_status_code: String,
    pub hostname: String,
    pub http_method: String,
    pub port: String,
    pub query_parameters: String,
    pub query_parameters_sub: bool,
    pub request_body: String,
    pub request_body_sub: bool,
    pub scheme_name: String,
    pub scheme_name_sub: bool,
    pub uri_path: String,
    pub uri_path_sub: bool,
}

impl WorkflowStepRest {
    /// What every step has.
    pub fn common(&self) -> (r: &WorkflowStepCore)
        ensures
            r == &self.common,
    {
        &self.common
    }

    /// The actual status code.
    pub fn actual_status_code(&self) -> (r: &str)
        ensures
            r@ == self.actual_status_code@,
    {
        self.actual_status_code.as_str()
    }

    /// The expected status code.
    pub fn expected_status_code(&self) -> (r: &str)
        ensures
            r@ == self.expected_status_code@,
    {
        self.expected_status_code.as_str()
    }

    /// The hostname.
    pub fn hostname(&self) -> (r: &str)
        ensures
            r@ == self.hostname@,
    {
        self.hostname.as_str()
    }

    /// The http method.
    pub fn http_method(&self) -> (r: &str)
        ensures
            r@ == self.http_method@,
    {
        self.http_method.as_str()
    }

    /// The port.
    pub fn port(&self) -> (r: &str)
        ensures
            r@ == self.port@,
    {
        self.port.as_str()
    }

    /// The query parameters.
    pub fn query_parameters(&self) -> (r: &str)
        ensures
            r@ == self.query_parameters@,
    {
        self.query_parameters.as_str()
    }

    /// The query parameters sub.
    pub fn query_parameters_sub(&self) -> (r: bool)
        ensures
            r == self.query_parameters_sub,
    {
        self.query_parameters_sub
    }

    /// The request body.
    pub fn request_body(&self) -> (r: &str)
        ensures
            r@ == self.request_body@,
    {
        self.request_body.as_str()
    }

    /// The request body sub.
    pub fn request_body_sub(&self) -> (r: bool)
        ensures
            r == self.request_body_sub,
    {
        self.request_body_sub
    }

    /// The scheme name.
    pub fn scheme_name(&self) -> (r: &str)
        ensures
            r@ == self.scheme_name@,
    {
        self.scheme_name.as_str()
    }

    /// The scheme name sub.
    pub fn scheme_name_sub(&self) -> (r: bool)
        ensures
            r == self.scheme_name_sub,
    {
        self.scheme_name_sub
    }

    /// The uri path.
    pub fn uri_path(&self) -> (r: &str)
        ensures
            r@ == self.uri_path@,
    {
        self.uri_path.as_str()
    }

    /// The uri path sub.
    pub fn uri_path_sub(&self) -> (r: bool)
        ensures
            r == self.uri_path_sub,
    {
        self.uri_path_sub
    }
}

/// The state of a step.
#[derive(Clone, Copy, Debug, PartialEq, Eq, Structural, Hash)]
pub enum WorkflowStepStatus {
    Unassigned,
    Assigned,
    NotReady,
    Ready,
    InProgress,
    Submitted,
    Complete,
    Skipped,
    CompleteOverride,
    Failed,
    Conflicts,
    ConditionNotSatisfied,
}

impl WorkflowStepStatus {
    /// The name of this value in requests and answers.
    pub open spec fn text(self) -> Seq<char> {
        match self {
            WorkflowStepStatus::Unassigned => "Unassigned"@,
            WorkflowStepStatus::Assigned => "Assigned"@,
            WorkflowStepStatus::NotReady => "Not Ready"@,
            WorkflowStepStatus::Ready => "Ready"@,
            WorkflowStepStatus::InProgress => "In Progress"@,
            WorkflowStepStatus::Submitted => "Submitted"@,
            WorkflowStepStatus::Complete => "Complete"@,
            WorkflowStepStatus::Skipped => "Skipped"@,
            WorkflowStepStatus::CompleteOverride => "Complete (Override)"@,
            WorkflowStepStatus::Failed => "Failed"@,
            WorkflowStepStatus::Conflicts => "Conflicts"@,
            WorkflowStepStatus::ConditionNotSatisfied => "Condition Not Satisfied"@,
        }
    }

    /// The name of this value in requests and answers.
    pub fn as_str(&self) -> (r: &'static str)
        ensures
            r@ == self.text(),
    {
        match self {
            WorkflowStepStatus::Unassigned => "Unassigned",
            WorkflowStepStatus::Assigned => "Assigned",
            WorkflowStepStatus::NotReady => "Not Ready",
            WorkflowStepStatus::Ready => "Ready",
            WorkflowStepStatus::InProgress => "In Progress",
            WorkflowStepStatus::Submitted => "Submitted",
            WorkflowStepStatus::Complete => "Complete",
            WorkflowStepStatus::Skipped => "Skipped",
            WorkflowStepStatus::CompleteOverride => "Complete (Override)",
            WorkflowStepStatus::Failed => "Failed",
            WorkflowStepStatus::Conflicts => "Conflicts",
            WorkflowStepStatus::ConditionNotSatisfied => "Condition Not Satisfied",
        }
    }
}

/// How a step submits its work.
#[derive(Clone, Copy, Debug, PartialEq, Eq, Structural, Hash)]
pub enum WorkflowStepSubmitAs {
    Jcl,
    TsoRexx,
    ShellJcl,
    TsoRexxJcl,
    TsoUnixRexx,
    TsoUnixShell,
}

impl WorkflowStepSubmitAs {
    /// The name of this value in requests and answers.
    pub open spec fn text(self) -> Seq<char> {
        match self {
            WorkflowStepSubmitAs::Jcl => "JCL"@,
            WorkflowStepSubmitAs::TsoRexx => "TSO-REXX"@,
            WorkflowStepSubmitAs::ShellJcl => "shell-JCL"@,
            WorkflowStepSubmitAs::TsoRexxJcl => "TSO-REXX-JCL"@,
            WorkflowStepSubmitAs::TsoUnixRexx => "TSO-UNIX-REXX"@,
            WorkflowStepSubmitAs::TsoUnixShell => "TSO-UNIX-shell"@,
        }
    }

    /// The name of this value in requests and answers.
    pub fn as_str(&self) -> (r: &'static str)
        ensures
            r@ == self.text(),
    {
        match self {
            WorkflowStepSubmitAs::Jcl => "JCL",
            WorkflowStepSubmitAs::TsoRexx => "TSO-REXX",
            WorkflowStepSubmitAs::ShellJcl => "shell-JCL",
            WorkflowStepSubmitAs::TsoRexxJcl => "TSO-REXX-JCL",
            WorkflowStepSubmitAs::TsoUnixRexx => "TSO-UNIX-REXX",
            WorkflowStepSubmitAs::TsoUnixShell => "TSO-UNIX-shell",
        }
    }
}

/// A step made from a template.
#[derive(Debug)]
pub struct WorkflowStepTemplate {
    pub common: WorkflowStepNonRest,
    pub failed_pattern: Option<Vec<String>>,
    pub instructions: Option<String>,
    pub instructions_sub: Option<bool>,
    pub job_info: Option<WorkflowStepJobInfo>,
    pub max_lrecl: Option<i32>,
    pub output: Option<String>,
    pub output_sub: Option<bool>,
    pub output_variables_prefix: Option<String>,
    pub proc_name: Option<String>,
    pub region_size: Option<i32>,
    pub return_code: Option<String>,
    pub save_as_dataset: Option<String>,
    pub save_as_dataset_sub: Option<bool>,
    pub save_as_unix_file: Option<String>,
    pub save_as_unix_file_sub: Option<bool>,
    pub script_parameters: Option<String>,
    pub submit_as: Option<WorkflowStepSubmitAs>,
    pub success_pattern: Option<String>,
    pub template: Option<String>,
    pub template_sub: Option<bool>,
    pub timeout: Option<i32>,
    pub variable_references: Option<Vec<WorkflowStepVariableReference>>,
}

impl WorkflowStepTemplate {
    /// What the step shares with the steps that send no REST request.
    pub fn common(&self) -> (r: &WorkflowStepNonRest)
        ensures
            r == &self.common,
    {
        &self.common
    }

    /// The failed pattern.
    pub fn failed_pattern(&self) -> (r: &Option<Vec<String>>)
        ensures
            r == &self.failed_pattern,
    {
        &self.failed_pattern
    }

    /// The instructions.
    pub fn instructions(&self) -> (r: Option<&str>)
        ensures
            opt_str_view(r) == opt_view(self.instructions),
    {
        match &self.instructions {
            Some(s) => Some(s.as_str()),
            None => None,
        }
    }

    /// The instructions sub.
    pub fn instructions_sub(&self) -> (r: Option<bool>)
        ensures
            r == self.instructions_sub,
    {
        self.instructions_sub
    }

    /// The job that the step ran.
    pub fn job_info(&self) -> (r: &Option<WorkflowStepJobInfo>)
        ensures
            r == &self.job_info,
    {
        &self.job_info
    }

    /// The max lrecl.
    pub fn max_lrecl(&self) -> (r: Option<i32>)
        ensures
            r == self.max_lrecl,
    {
        self.max_lrecl
    }

    /// The output.
    pub fn output(&self) -> (r: Option<&str>)
        ensures
            opt_str_view(r) == opt_view(self.output),
    {
        match &self.output {
            Some(s) => Some(s.as_str()),
            None => None,
        }
    }

    /// The output sub.
    pub fn output_sub(&self) -> (r: Option<bool>)
        ensures
            r == self.output_sub,
    {
        self.output_sub
    }

    /// The output variables prefix.
    pub fn output_variables_prefix(&self) -> (r: Option<&str>)
        ensures
            opt_str_view(r) == opt_view(self.output_variables_prefix),
    {
        match &self.output_variables_prefix {
            Some(s) => Some(s.as_str()),
            None => None,
        }
    }

    /// The proc name.
    pub fn proc_name(&self) -> (r: Option<&str>)
        ensures
            opt_str_view(r) == opt_view(self.proc_name),
    {
        match &self.proc_name {
            Some(s) => Some(s.as_str()),
            None => None,
        }
    }

    /// The region size.
    pub fn region_size(&self) -> (r: Option<i32>)
        ensures
            r == self.region_size,
    {
        self.region_size
    }

    /// The return code.
    pub fn return_code(&self) -> (r: Option<&str>)
        ensures
            opt_str_view(r) == opt_view(self.return_code),
    {
        match &self.return_code {
            Some(s) => Some(s.as_str()),
            None => None,
        }
    }

    /// The save as dataset.
    pub fn save_as_dataset(&self) -> (r: Option<&str>)
        ensures
            opt_str_view(r) == opt_view(self.save_as_dataset),
    {
        match &self.save_as_dataset {
            Some(s) => Some(s.as_str()),
            None => None,
        }
    }

    /// The save as dataset sub.
    pub fn save_as_dataset_sub(&self) -> (r: Option<bool>)
        ensures
            r == self.save_as_dataset_sub,
    {
        self.save_as_dataset_sub
    }

    /// The save as unix file.
    pub fn save_as_unix_file(&self) -> (r: Option<&str>)
        ensures
            opt_str_view(r) == opt_view(self.save_as_unix_file),
    {
        match &self.save_as_unix_file {
            Some(s) => Some(s.as_str()),
            None => None,
        }
    }

    /// The save as unix file sub.
    pub fn save_as_unix_file_sub(&self) -> (r: Option<bool>)
        ensures
            r == self.save_as_unix_file_sub,
    {
        self.save_as_unix_file_sub
    }

    /// The script parameters.
    pub fn script_parameters(&self) -> (r: Option<&str>)
        ensures
            opt_str_view(r) == opt_view(self.script_parameters),
    {
        match &self.script_parameters {
            Some(s) => Some(s.as_str()),
            None => None,
        }
    }

    /// The submit as.
    pub fn submit_as(&self) -> (r: Option<WorkflowStepSubmitAs>)
        ensures
            r == self.submit_as,
    {
        self.submit_as
    }

    /// The success pattern.
    pub fn success_pattern(&self) -> (r: Option<&str>)
        ensures
            opt_str_view(r) == opt_view(self.success_pattern),
    {
        match &self.success_pattern {
            Some(s) => Some(s.as_str()),
            None => None,
        }
    }

    /// The template.
    pub fn template(&self) -> (r: Option<&str>)
        ensures
            opt_str_view(r) == opt_view(self.template),
    {
        match &self.template {
            Some(s) => Some(s.as_str()),
            None => None,
        }
    }

    /// The template sub.
    pub fn template_sub(&self) -> (r: Option<bool>)
        ensures
            r == self.template_sub,
    {
        self.template_sub
    }

    /// The timeout.
    pub fn timeout(&self) -> (r: Option<i32>)
        ensures
            r == self.timeout,
    {
        self.timeout
    }

    /// The variables that the step uses.
    pub fn variable_references(&self) -> (r: &Option<Vec<WorkflowStepVariableReference>>)
        ensures
            r == &self.variable_references,
    {
        &self.variable_references
    }
}

/// A variable that a step uses.
#[derive(Clone, Debug, PartialEq, Eq, Hash)]
pub struct WorkflowStepVariableReference {
    pub name: String,
    pub scope: WorkflowVariableScope,
}

impl WorkflowStepVariableReference {
    /// The name.
    pub fn name(&self) -> (r: &str)
        ensures
            r@ == self.name@,
    {
        self.name.as_str()
    }

    /// The scope.
    pub fn scope(&self) -> (r: WorkflowVariableScope)
        ensures
            r == self.scope,
    {
        self.scope
    }
}

/// A variable of a workflow.
#[derive(Clone, Debug, PartialEq, Eq, Hash)]
pub struct WorkflowVariableInfo {
    pub name: String,
    pub scope: WorkflowVariableScope,
    pub variable_type: WorkflowVariableType,
    pub value: Option<String>,
    pub visibility: String,
}

impl WorkflowVariableInfo {
    /// The name.
    pub fn name(&self) -> (r: &str)
        ensures
            r@ == self.name@,
    {
        self.name.as_str()
    }

    /// The scope.
    pub fn scope(&self) -> (r: WorkflowVariableScope)
        ensures
            r == self.scope,
    {
        self.scope
    }

    /// The type of the variable.
    pub fn variable_type(&self) -> (r: WorkflowVariableType)
        ensures
            r == self.variable_type,
    {
        self.variable_type
    }

    /// The value.
    pub fn value(&self) -> (r: Option<&str>)
        ensures
            opt_str_view(r) == opt_view(self.value),
    {
        match &self.value {
            Some(s) => Some(s.as_str()),
            None => None,
        }
    }

    /// The visibility.
    pub fn visibility(&self) -> (r: &str)
        ensures
            r@ == self.visibility@,
    {
        self.visibility.as_str()
    }
}

/// Where a variable lives.
#[derive(Clone, Copy, Debug, PartialEq, Eq, Structural, Hash)]
pub enum WorkflowVariableScope {
    Instance,
    Global,
}

impl WorkflowVariableScope {
    /// The name of this value in requests and answers.
    pub open spec fn text(self) -> Seq<char> {
        match self {
            WorkflowVariableScope::Instance => "instance"@,
            WorkflowVariableScope::Global => "global"@,
        }
    }

    /// The name of this value in requests and answers.
    pub fn as_str(&self) -> (r: &'static str)
        ensures
            r@ == self.text(),
    {
        match self {
            WorkflowVariableScope::Instance => "instance",
            WorkflowVariableScope::Global => "global",
        }
    }
}

/// The type of a variable.
#[derive(Clone, Copy, Debug, PartialEq, Eq, Structural, Hash)]
pub enum WorkflowVariableType {
    Boolean,
    String,
    Number,
    Date,
    Time,
    Array,
}

impl WorkflowVariableType {
    /// The name of this value in requests and answers.
    pub open spec fn text(self) -> Seq<char> {
        match self {
            WorkflowVariableType::Boolean => "boolean"@,
            WorkflowVariableType::String => "string"@,
            WorkflowVariableType::Number => "number"@,
            WorkflowVariableType::Date => "date"@,
            WorkflowVariableType::Time => "time"@,
            WorkflowVariableType::Array => "array"@,
        }
    }

    /// The name of this value in requests and answers.
    pub fn as_str(&self) -> (r: &'static str)
        ensures
            r@ == self.text(),
    {
        match self {
            WorkflowVariableType::Boolean => "boolean",
            WorkflowVariableType::String => "string",
            WorkflowVariableType::Number => "number",
            WorkflowVariableType::Date => "date",
            WorkflowVariableType::Time => "time",
            WorkflowVariableType::Array => "array",
        }
    }
}

/// A request that reads the properties of a workflow.
#[derive(Clone, Debug)]
pub struct WorkflowPropertiesBuilder {
    pub base_url: String,
    pub workflow_type: WorkflowType,
    pub key: String,
    pub return_data: Option<ReturnData>,
}

impl WorkflowPropertiesBuilder {
    /// The builder as it is first made.
    pub open spec fn is_new(
        self,
        base_url: Seq<char>,
        workflow_type: WorkflowType,
        key: Seq<char>,
    ) -> bool {
        &&& self.base_url@ == base_url
        &&& self.workflow_type == workflow_type
        &&& self.key@ == key
        &&& self.return_data is None
    }

    /// A builder that reads the properties of the workflow `key` of a
    /// collection.
    pub fn new(
        base_url: String,
        workflow_type: WorkflowType,
        key: &str,
    ) -> (r: WorkflowPropertiesBuilder)
        ensures
            r.is_new(base_url@, workflow_type, key@),
    {
        WorkflowPropertiesBuilder { base_url, workflow_type, key: String::from_str(key), return_data: None }
    }

    /// Asks for the steps too.
    pub fn steps(self) -> (r: WorkflowPropertiesBuilder)
        ensures
            r == (WorkflowPropertiesBuilder { return_data: with_steps(self.return_data), ..self }),
    {
        let d = add_steps(self.return_data);
        WorkflowPropertiesBuilder { return_data: d, ..self }
    }

    /// Asks for the variables too.
    pub fn variables(self) -> (r: WorkflowPropertiesBuilder)
        ensures
            r == (WorkflowPropertiesBuilder { return_data: with_variables(self.return_data), ..self }),
    {
        let d = add_variables(self.return_data);
        WorkflowPropertiesBuilder { return_data: d, ..self }
    }

    /// The request that this builder describes.
    pub open spec fn spec_request(&self) -> RequestView {
        with_return_data(
            request_to(
                Method::Get,
                url_of(self.base_url@, typed_workflow_path(self.workflow_type, self.key@)),
            ),
            self.return_data,
        )
    }

    /// The request: `GET` on the workflow, with what is asked for as a query parameter.
    pub fn get_request(&self) -> (r: Request)
        ensures
            r@ == self.spec_request(),
    {
        let path = write_typed_workflow_path(self.workflow_type, self.key.as_str());
        let mut r = Request::new(Method::Get, self.base_url.as_str(), &path);
        add_return_data(&mut r, self.return_data);
        r
    }
}

} // verus!
