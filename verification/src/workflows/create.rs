//! Creating a workflow.

use vstd::prelude::*;

use crate::request::{
    bool_json, jstr, member_opt, request_to, str_json, url_of, Json, JsonValue, Members, Method,
    Request, RequestView,
};
use crate::text::chars_of;
use crate::workflows::WorkflowAccess;

verus! {

/// The answer to the creation of a workflow.
#[derive(Clone, Debug, PartialEq, Eq, Hash)]
pub struct WorkflowCreate {
    pub description: String,
    pub id: String,
    pub key: String,
    pub vendor: String,
    pub version: String,
}

impl WorkflowCreate {
    /// The description.
    pub fn description(&self) -> (r: &str)
        ensures
            r@ == self.description@,
    {
        self.description.as_str()
    }

    /// The id.
    pub fn id(&self) -> (r: &str)
        ensures
            r@ == self.id@,
    {
        self.id.as_str()
    }

    /// The key.
    pub fn key(&self) -> (r: &str)
        ensures
            r@ == self.key@,
    {
        self.key.as_str()
    }

    /// The vendor.
    pub fn vendor(&self) -> (r: &str)
        ensures
            r@ == self.vendor@,
    {
        self.vendor.as_str()
    }

    /// The version.
    pub fn version(&self) -> (r: &str)
        ensures
            r@ == self.version@,
    {
        self.version.as_str()
    }
}

/// A value for a variable of a new workflow.
#[derive(Clone, Debug, PartialEq, Eq, Hash)]
pub struct WorkflowVariableOverride {
    pub name: String,
    pub value: String,
}

impl WorkflowVariableOverride {
    /// The variable's name.
    pub fn name(&self) -> (r: &str)
        ensures
            r@ == self.name@,
    {
        self.name.as_str()
    }

    /// The variable's value.
    pub fn value(&self) -> (r: &str)
        ensures
            r@ == self.value@,
    {
        self.value.as_str()
    }
}

/// Which value of a global variable wins when a new workflow gives another.
#[derive(Clone, Copy, Debug, PartialEq, Eq, Structural, Hash)]
pub enum WorkflowVariableResolveConflict {
    Global,
    Input,
}

impl WorkflowVariableResolveConflict {
    /// The name of this value in requests and answers.
    pub open spec fn text(self) -> Seq<char> {
        match self {
            WorkflowVariableResolveConflict::Global => "global"@,
            WorkflowVariableResolveConflict::Input => "input"@,
        }
    }

    /// The name of this value in requests and answers.
    pub fn as_str(&self) -> (r: &'static str)
        ensures
            r@ == self.text(),
    {
        match self {
            WorkflowVariableResolveConflict::Global => "global",
            WorkflowVariableResolveConflict::Input => "input",
        }
    }
}

impl Default for WorkflowVariableResolveConflict {
    fn default() -> (r: WorkflowVariableResolveConflict)
        ensures
            r == WorkflowVariableResolveConflict::Global,
    {
        WorkflowVariableResolveConflict::Global
    }
}

/// A request that creates a workflow.
#[derive(Clone, Debug)]
pub struct WorkflowCreateBuilder {
    pub base_url: String,
    pub name: String,
    pub definition_file: String,
    pub system: String,
    pub owner: String,
    pub definition_file_system: Option<String>,
    pub variable_input_file: Option<String>,
    pub variables: Option<Vec<WorkflowVariableOverride>>,
    pub resolve_global_conflict_by_using: Option<WorkflowVariableResolveConflict>,
    pub archive_saf_id: Option<String>,
    pub comments: Option<String>,
    pub assign_to_owner: Option<bool>,
    pub access_type: Option<WorkflowAccess>,
    pub account_info: Option<String>,
    pub job_statement: Option<String>,
    pub delete_completed_jobs: Option<bool>,
    pub jobs_output_directory: Option<String>,
    pub auto_delete_on_completion: Option<bool>,
    pub target_system_uid: Option<String>,
    pub target_system_password: Option<String>,
}

impl WorkflowCreateBuilder {
    /// The builder as it is first made.
    pub open spec fn is_new(
        self,
        base_url: Seq<char>,
        name: Seq<char>,
        definition_file: Seq<char>,
        system: Seq<char>,
        owner: Seq<char>,
    ) -> bool {
        &&& self.base_url@ == base_url
        &&& self.name@ == name
        &&& self.definition_file@ == definition_file
        &&& self.system@ == system
        &&& self.owner@ == owner
        &&& self.definition_file_system is None
        &&& self.variable_input_file is None
        &&& self.variables is None
        &&& self.resolve_global_conflict_by_using is None
        &&& self.archive_saf_id is None
        &&& self.comments is None
        &&& self.assign_to_owner is None
        &&& self.access_type is None
        &&& self.account_info is None
        &&& self.job_statement is None
        &&& self.delete_completed_jobs is None
        &&& self.jobs_output_directory is None
        &&& self.auto_delete_on_completion is None
        &&& self.target_system_uid is None
        &&& self.target_system_password is None
    }

    /// A builder that creates the workflow `name` from a definition file, on a system, for an owner.
    pub fn new(
        base_url: String,
        name: &str,
        definition_file: &str,
        system: &str,
        owner: &str,
    ) -> (r: WorkflowCreateBuilder)
        ensures
            r.is_new(base_url@, name@, definition_file@, system@, owner@),
    {
        WorkflowCreateBuilder {
            base_url,
            name: String::from_str(name),
            definition_file: String::from_str(definition_file),
            system: String::from_str(system),
            owner: String::from_str(owner),
            definition_file_system: None,
            variable_input_file: None,
            variables: None,
            resolve_global_conflict_by_using: None,
            archive_saf_id: None,
            comments: None,
            assign_to_owner: None,
            access_type: None,
            account_info: None,
            job_statement: None,
            delete_completed_jobs: None,
            jobs_output_directory: None,
            auto_delete_on_completion: None,
            target_system_uid: None,
            target_system_password: None,
        }
    }

    /// Sets the system that holds the definition file.
    pub fn definition_file_system(self, value: &str) -> (r: WorkflowCreateBuilder)
        ensures
            r.definition_file_system matches Some(s) && s@ == value@,
            r == (WorkflowCreateBuilder { definition_file_system: r.definition_file_system, ..self }),
    {
        WorkflowCreateBuilder { definition_file_system: Some(String::from_str(value)), ..self }
    }

    /// Sets the file of variable values.
    pub fn variable_input_file(self, value: &str) -> (r: WorkflowCreateBuilder)
        ensures
            r.variable_input_file matches Some(s) && s@ == value@,
            r == (WorkflowCreateBuilder { variable_input_file: r.variable_input_file, ..self }),
    {
        WorkflowCreateBuilder { variable_input_file: Some(String::from_str(value)), ..self }
    }

    /// Sets values of variables.
    pub fn variables(self, value: Vec<WorkflowVariableOverride>) -> (r: WorkflowCreateBuilder)
        ensures
            r == (WorkflowCreateBuilder { variables: Some(value), ..self }),
    {
        WorkflowCreateBuilder { variables: Some(value), ..self }
    }

    /// Sets which value of a global variable wins.
    pub fn resolve_global_conflict_by_using(
        self,
        value: WorkflowVariableResolveConflict,
    ) -> (r: WorkflowCreateBuilder)
        ensures
            r == (WorkflowCreateBuilder { resolve_global_conflict_by_using: Some(value), ..self }),
    {
        WorkflowCreateBuilder { resolve_global_conflict_by_using: Some(value), ..self }
    }

    /// Sets the SAF id of the archive.
    pub fn archive_saf_id(self, value: &str) -> (r: WorkflowCreateBuilder)
        ensures
            r.archive_saf_id matches Some(s) && s@ == value@,
            r == (WorkflowCreateBuilder { archive_saf_id: r.archive_saf_id, ..self }),
    {
        WorkflowCreateBuilder { archive_saf_id: Some(String::from_str(value)), ..self }
    }

    /// Sets comments.
    pub fn comments(self, value: &str) -> (r: WorkflowCreateBuilder)
        ensures
            r.comments matches Some(s) && s@ == value@,
            r == (WorkflowCreateBuilder { comments: r.comments, ..self }),
    {
        WorkflowCreateBuilder { comments: Some(String::from_str(value)), ..self }
    }

    /// Assigns the steps to the owner.
    pub fn assign_to_owner(self, value: bool) -> (r: WorkflowCreateBuilder)
        ensures
            r == (WorkflowCreateBuilder { assign_to_owner: Some(value), ..self }),
    {
        WorkflowCreateBuilder { assign_to_owner: Some(value), ..self }
    }

    /// Sets who may see the workflow.
    pub fn access_type(self, value: WorkflowAccess) -> (r: WorkflowCreateBuilder)
        ensures
            r == (WorkflowCreateBuilder { access_type: Some(value), ..self }),
    {
        WorkflowCreateBuilder { access_type: Some(value), ..self }
    }

    /// Sets the account information of jobs.
    pub fn account_info(self, value: &str) -> (r: WorkflowCreateBuilder)
        ensures
            r.account_info matches Some(s) && s@ == value@,
            r == (WorkflowCreateBuilder { account_info: r.account_info, ..self }),
    {
        WorkflowCreateBuilder { account_info: Some(String::from_str(value)), ..self }
    }

    /// Sets the job statement of jobs.
    pub fn job_statement(self, value: &str) -> (r: WorkflowCreateBuilder)
        ensures
            r.job_statement matches Some(s) && s@ == value@,
            r == (WorkflowCreateBuilder { job_statement: r.job_statement, ..self }),
    {
        WorkflowCreateBuilder { job_statement: Some(String::from_str(value)), ..self }
    }

    /// Deletes the jobs that complete.
    pub fn delete_completed_jobs(self, value: bool) -> (r: WorkflowCreateBuilder)
        ensures
            r == (WorkflowCreateBuilder { delete_completed_jobs: Some(value), ..self }),
    {
        WorkflowCreateBuilder { delete_completed_jobs: Some(value), ..self }
    }

    /// Sets the directory of the output of jobs.
    pub fn jobs_output_directory(self, value: &str) -> (r: WorkflowCreateBuilder)
        ensures
            r.jobs_output_directory matches Some(s) && s@ == value@,
            r == (WorkflowCreateBuilder { jobs_output_directory: r.jobs_output_directory, ..self }),
    {
        WorkflowCreateBuilder { jobs_output_directory: Some(String::from_str(value)), ..self }
    }

    /// Deletes the workflow when it completes.
    pub fn auto_delete_on_completion(self, value: bool) -> (r: WorkflowCreateBuilder)
        ensures
            r == (WorkflowCreateBuilder { auto_delete_on_completion: Some(value), ..self }),
    {
        WorkflowCreateBuilder { auto_delete_on_completion: Some(value), ..self }
    }

    /// Sets the user on the target system.
    pub fn target_system_uid(self, value: &str) -> (r: WorkflowCreateBuilder)
        ensures
            r.target_system_uid matches Some(s) && s@ == value@,
            r == (WorkflowCreateBuilder { target_system_uid: r.target_system_uid, ..self }),
    {
        WorkflowCreateBuilder { target_system_uid: Some(String::from_str(value)), ..self }
    }

    /// Sets the password on the target system.
    pub fn target_system_password(self, value: &str) -> (r: WorkflowCreateBuilder)
        ensures
            r.target_system_password matches Some(s) && s@ == value@,
            r == (WorkflowCreateBuilder { target_system_password: r.target_system_password, ..self }),
    {
        WorkflowCreateBuilder { target_system_password: Some(String::from_str(value)), ..self }
    }

    /// The members that name the workflow and its definition.
    pub open spec fn definition_members(&self) -> Seq<(Seq<char>, Json)> {
        seq![("workflowName"@, jstr(self.name@))]
            + seq![("workflowDefinitionFile"@, jstr(self.definition_file@))]
            + member_opt("workflowDefinitionFileSystem"@, str_json(self.definition_file_system))
            + member_opt("variableInputFile"@, str_json(self.variable_input_file))
            + member_opt("variables"@, overrides_member(self.variables))
            + member_opt(
                "resolveGlobalConflictByUsing"@,
                conflict_member(self.resolve_global_conflict_by_using),
            )
    }

    /// The members that name the system and the owner, and what the owner is given.
    pub open spec fn owner_members(&self) -> Seq<(Seq<char>, Json)> {
        seq![("system"@, jstr(self.system@))]
            + seq![("owner"@, jstr(self.owner@))]
            + member_opt("workflowArchiveSAFID"@, str_json(self.archive_saf_id))
            + member_opt("comments"@, str_json(self.comments))
            + member_opt("assignToOwner"@, bool_json(self.assign_to_owner))
            + member_opt("accessType"@, access_member(self.access_type))
    }

    /// The members about the jobs that the workflow runs.
    pub open spec fn job_members(&self) -> Seq<(Seq<char>, Json)> {
        member_opt("accountInfo"@, str_json(self.account_info))
            + member_opt("jobStatement"@, str_json(self.job_statement))
            + member_opt("deleteCompletedJobs"@, bool_json(self.delete_completed_jobs))
            + member_opt("jobsOutputDirectory"@, str_json(self.jobs_output_directory))
            + member_opt("autoDeleteOnCompletion"@, bool_json(self.auto_delete_on_completion))
    }

    /// The members that log on to the target system.
    pub open spec fn target_members(&self) -> Seq<(Seq<char>, Json)> {
        member_opt("targetSystemuid"@, str_json(self.target_system_uid))
            + member_opt("targetSystempwd"@, str_json(self.target_system_password))
    }

    /// The members of the description of the new workflow, in order.
    pub open spec fn members(&self) -> Seq<(Seq<char>, Json)> {
        self.definition_members() + self.owner_members() + self.job_members() + self.target_members()
    }

    /// The request that this builder describes.
    pub open spec fn spec_request(&self) -> RequestView {
        request_to(Method::Post, url_of(self.base_url@, "/zosmf/workflow/rest/1.0/workflows"@)).with_json(
            Json::Object(self.members()),
        )
    }

    /// Adds the members of [`Self::definition_members`].
    fn add_definition_members(&self, m: &mut Members)
        ensures
            final(m)@ == old(m)@ + self.definition_members(),
    {
        let ghost before = m@;
        m.add_str("workflowName", self.name.as_str());
        m.add_str("workflowDefinitionFile", self.definition_file.as_str());
        m.add_opt_str("workflowDefinitionFileSystem", &self.definition_file_system);
        m.add_opt_str("variableInputFile", &self.variable_input_file);
        m.add_opt("variables", self.variables_json());
        m.add_opt(
            "resolveGlobalConflictByUsing",
            match self.resolve_global_conflict_by_using {
                Some(e) => Some(JsonValue::Str(String::from_str(e.as_str()))),
                None => None,
            },
        );
        proof {
            assert(m@ =~= before + self.definition_members());
        }
    }

    /// Adds the members of [`Self::owner_members`].
    fn add_owner_members(&self, m: &mut Members)
        ensures
            final(m)@ == old(m)@ + self.owner_members(),
    {
        let ghost before = m@;
        m.add_str("system", self.system.as_str());
        m.add_str("owner", self.owner.as_str());
        m.add_opt_str("workflowArchiveSAFID", &self.archive_saf_id);
        m.add_opt_str("comments", &self.comments);
        m.add_opt_bool("assignToOwner", self.assign_to_owner);
        m.add_opt(
            "accessType",
            match self.access_type {
                Some(e) => Some(JsonValue::Str(String::from_str(e.as_str()))),
                None => None,
            },
        );
        proof {
            assert(m@ =~= before + self.owner_members());
        }
    }

    /// Adds the members of [`Self::job_members`].
    fn add_job_members(&self, m: &mut Members)
        ensures
            final(m)@ == old(m)@ + self.job_members(),
    {
        let ghost before = m@;
        m.add_opt_str("accountInfo", &self.account_info);
        m.add_opt_str("jobStatement", &self.job_statement);
        m.add_opt_bool("deleteCompletedJobs", self.delete_completed_jobs);
        m.add_opt_str("jobsOutputDirectory", &self.jobs_output_directory);
        m.add_opt_bool("autoDeleteOnCompletion", self.auto_delete_on_completion);
        proof {
            assert(m@ =~= before + self.job_members());
        }
    }

    /// Adds the members of [`Self::target_members`].
    fn add_target_members(&self, m: &mut Members)
        ensures
            final(m)@ == old(m)@ + self.target_members(),
    {
        let ghost before = m@;
        m.add_opt_str("targetSystemuid", &self.target_system_uid);
        m.add_opt_str("targetSystempwd", &self.target_system_password);
        proof {
            assert(m@ =~= before + self.target_members());
        }
    }

    /// The request: `POST` on the workflows with the description of the new
    /// workflow.
    pub fn get_request(&self) -> (r: Request)
        ensures
            r@ == self.spec_request(),
    {
        let path = chars_of("/zosmf/workflow/rest/1.0/workflows");
        let mut r = Request::new(Method::Post, self.base_url.as_str(), &path);
        let mut m = Members::new();
        self.add_definition_members(&mut m);
        self.add_owner_members(&mut m);
        self.add_job_members(&mut m);
        self.add_target_members(&mut m);
        proof {
            assert(m@ =~= self.members());
        }
        r.set_json(m.into_object());
        r
    }
}

/// The member `variables`, when values are given.
pub open spec fn overrides_member(
    variables: Option<Vec<WorkflowVariableOverride>>,
) -> Option<Json> {
    match variables {
        Some(v) => Some(overrides_json(v@)),
        None => None,
    }
}

/// The member `resolveGlobalConflictByUsing`, when it is given.
pub open spec fn conflict_member(c: Option<WorkflowVariableResolveConflict>) -> Option<Json> {
    match c {
        Some(e) => Some(jstr(e.text())),
        None => None,
    }
}

/// The member `accessType`, when it is given.
pub open spec fn access_member(a: Option<WorkflowAccess>) -> Option<Json> {
    match a {
        Some(e) => Some(jstr(e.text())),
        None => None,
    }
}

/// The JSON of variable values that override those of the definition.
pub open spec fn overrides_json(vs: Seq<WorkflowVariableOverride>) -> Json {
    Json::Array(
        Seq::new(
            vs.len(),
            |i: int| Json::Object(seq![("name"@, jstr(vs[i].name@)), ("value"@, jstr(vs[i].value@))]),
        ),
    )
}

impl WorkflowVariableOverride {
    /// A value for the variable `name`.
    pub fn new(name: &str, value: &str) -> (r: WorkflowVariableOverride)
        ensures
            r.name@ == name@,
            r.value@ == value@,
    {
        WorkflowVariableOverride { name: String::from_str(name), value: String::from_str(value) }
    }
}

impl WorkflowCreateBuilder {
    /// The JSON of the variable values, when they are given.
    pub fn variables_json(&self) -> (r: Option<JsonValue>)
        ensures
            match r {
                Some(j) => self.variables matches Some(v) && j@ == overrides_json(v@),
                None => self.variables is None,
            },
    {
        match &self.variables {
            None => None,
            Some(vs) => {
                let mut items: Vec<JsonValue> = Vec::new();
                let mut i: usize = 0;
                while i < vs.len()
                    invariant
                        0 <= i <= vs.len(),
                        items@.len() == i,
                        forall|k: int|
                            0 <= k < i ==> (#[trigger] items@[k])@ == Json::Object(
                                seq![("name"@, jstr(vs@[k].name@)), ("value"@, jstr(vs@[k].value@))],
                            ),
                    decreases vs.len() - i,
                {
                    let mut m = Members::new();
                    m.add_str("name", vs[i].name.as_str());
                    m.add_str("value", vs[i].value.as_str());
                    proof {
                        assert(m@ =~= seq![
                            ("name"@, jstr(vs@[i as int].name@)),
                            ("value"@, jstr(vs@[i as int].value@)),
                        ]);
                    }
                    items.push(m.into_object());
                    i = i + 1;
                }
                proof {
                    assert(crate::request::items_view(items@) =~= overrides_json(vs@)->Array_0);
                }
                Some(crate::request::json_array(items))
            },
        }
    }
}

} // verus!
