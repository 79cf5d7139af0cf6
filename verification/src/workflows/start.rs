//! Starting a workflow.

use vstd::prelude::*;

use crate::request::{
    jstr, request_to, url_of, Json, JsonValue, Members, Method, Request, RequestView,
};
use crate::workflows::{operation_path, write_operation_path};

verus! {

/// How a start settles a conflict between the values of a variable.
#[derive(Clone, Copy, Debug, PartialEq, Eq, Structural, Hash)]
pub enum WorkflowStartResolveVariableConflict {
    OutputFileValue,
    ExistingValue,
    LeaveConflict,
}

impl WorkflowStartResolveVariableConflict {
    /// The name of this value in requests and answers.
    pub open spec fn text(self) -> Seq<char> {
        match self {
            WorkflowStartResolveVariableConflict::OutputFileValue => "outputFileValue"@,
            WorkflowStartResolveVariableConflict::ExistingValue => "existingValue"@,
            WorkflowStartResolveVariableConflict::LeaveConflict => "leaveConflict"@,
        }
    }

    /// The name of this value in requests and answers.
    pub fn as_str(&self) -> (r: &'static str)
        ensures
            r@ == self.text(),
    {
        match self {
            WorkflowStartResolveVariableConflict::OutputFileValue => "outputFileValue",
            WorkflowStartResolveVariableConflict::ExistingValue => "existingValue",
            WorkflowStartResolveVariableConflict::LeaveConflict => "leaveConflict",
        }
    }
}

impl WorkflowStartResolveVariableConflict {
    /// The text of this value, as its `Display` writes it.
    pub fn to_string(&self) -> (r: String)
        ensures
            r@ == self.text(),
    {
        String::from_str(self.as_str())
    }
}

/// A request that starts a workflow.
#[derive(Clone, Debug)]
pub struct WorkflowStartBuilder {
    pub base_url: String,
    pub key: String,
    pub resolve_conflict_by_using: Option<WorkflowStartResolveVariableConflict>,
    pub step_name: Option<String>,
    pub perform_subsequent: Option<bool>,
    pub notification_url: Option<String>,
    pub target_system_user: Option<String>,
    pub target_system_password: Option<String>,
}

impl WorkflowStartBuilder {
    /// The builder as it is first made.
    pub open spec fn is_new(self, base_url: Seq<char>, key: Seq<char>) -> bool {
        &&& self.base_url@ == base_url
        &&& self.key@ == key
        &&& self.resolve_conflict_by_using is None
        &&& self.step_name is None
        &&& self.perform_subsequent is None
        &&& self.notification_url is None
        &&& self.target_system_user is None
        &&& self.target_system_password is None
    }

    /// A builder that starts the workflow `key`.
    pub fn new(base_url: String, key: &str) -> (r: WorkflowStartBuilder)
        ensures
            r.is_new(base_url@, key@),
    {
        WorkflowStartBuilder {
            base_url,
            key: String::from_str(key),
            resolve_conflict_by_using: None,
            step_name: None,
            perform_subsequent: None,
            notification_url: None,
            target_system_user: None,
            target_system_password: None,
        }
    }

    /// Sets how conflicts between values are settled.
    pub fn resolve_conflict_by_using(
        self,
        value: WorkflowStartResolveVariableConflict,
    ) -> (r: WorkflowStartBuilder)
        ensures
            r == (WorkflowStartBuilder { resolve_conflict_by_using: Some(value), ..self }),
    {
        WorkflowStartBuilder { resolve_conflict_by_using: Some(value), ..self }
    }

    /// Starts at this step.
    pub fn step_name(self, value: &str) -> (r: WorkflowStartBuilder)
        ensures
            r.step_name matches Some(s) && s@ == value@,
            r == (WorkflowStartBuilder { step_name: r.step_name, ..self }),
    {
        WorkflowStartBuilder { step_name: Some(String::from_str(value)), ..self }
    }

    /// Runs the steps that follow too.
    pub fn perform_subsequent(self, value: bool) -> (r: WorkflowStartBuilder)
        ensures
            r == (WorkflowStartBuilder { perform_subsequent: Some(value), ..self }),
    {
        WorkflowStartBuilder { perform_subsequent: Some(value), ..self }
    }

    /// Sets the URL that is told of the end.
    pub fn notification_url(self, value: &str) -> (r: WorkflowStartBuilder)
        ensures
            r.notification_url matches Some(s) && s@ == value@,
            r == (WorkflowStartBuilder { notification_url: r.notification_url, ..self }),
    {
        WorkflowStartBuilder { notification_url: Some(String::from_str(value)), ..self }
    }

    /// Sets the user on the target system.
    pub fn target_system_user(self, value: &str) -> (r: WorkflowStartBuilder)
        ensures
            r.target_system_user matches Some(s) && s@ == value@,
            r == (WorkflowStartBuilder { target_system_user: r.target_system_user, ..self }),
    {
        WorkflowStartBuilder { target_system_user: Some(String::from_str(value)), ..self }
    }

    /// Sets the password on the target system.
    pub fn target_system_password(self, value: &str) -> (r: WorkflowStartBuilder)
        ensures
            r.target_system_password matches Some(s) && s@ == value@,
            r == (WorkflowStartBuilder { target_system_password: r.target_system_password, ..self }),
    {
        WorkflowStartBuilder { target_system_password: Some(String::from_str(value)), ..self }
    }

    /// The members of the body, in order.
    pub open spec fn members(&self) -> Seq<(Seq<char>, Json)> {
        seq![
            (
                "resolveConflictByUsing"@,
                match self.resolve_conflict_by_using {
                    Some(e) => jstr(e.text()),
                    None => Json::Null,
                },
            ),
            (
                "stepName"@,
                match self.step_name {
                    Some(s) => jstr(s@),
                    None => Json::Null,
                },
            ),
            (
                "performSubsequent"@,
                match self.perform_subsequent {
                    Some(b) => Json::Bool(b),
                    None => Json::Null,
                },
            ),
            (
                "notificationUrl"@,
                match self.notification_url {
                    Some(s) => jstr(s@),
                    None => Json::Null,
                },
            ),
            (
                "targetSystemuid"@,
                match self.target_system_user {
                    Some(s) => jstr(s@),
                    None => Json::Null,
                },
            ),
            (
                "targetSystempwd"@,
                match self.target_system_password {
                    Some(s) => jstr(s@),
                    None => Json::Null,
                },
            ),
        ]
    }

    /// The request that this builder describes.
    pub open spec fn spec_request(&self) -> RequestView {
        request_to(Method::Put, url_of(self.base_url@, operation_path(self.key@, "start"@))).with_json(
            Json::Object(self.members()),
        )
    }

    /// The request: `PUT` on the workflow's start operation, with every option, `null` where it is not given.
    pub fn get_request(&self) -> (r: Request)
        ensures
            r@ == self.spec_request(),
    {
        let path = write_operation_path(self.key.as_str(), "start");
        let mut r = Request::new(Method::Put, self.base_url.as_str(), &path);
        let mut m = Members::new();
        m.add(
            "resolveConflictByUsing",
            match self.resolve_conflict_by_using {
                Some(e) => JsonValue::Str(String::from_str(e.as_str())),
                None => JsonValue::Null,
            },
        );
        m.add(
            "stepName",
            match &self.step_name {
                Some(s) => JsonValue::Str(s.clone()),
                None => JsonValue::Null,
            },
        );
        m.add(
            "performSubsequent",
            match self.perform_subsequent {
                Some(b) => JsonValue::Bool(b),
                None => JsonValue::Null,
            },
        );
        m.add(
            "notificationUrl",
            match &self.notification_url {
                Some(s) => JsonValue::Str(s.clone()),
                None => JsonValue::Null,
            },
        );
        m.add(
            "targetSystemuid",
            match &self.target_system_user {
                Some(s) => JsonValue::Str(s.clone()),
                None => JsonValue::Null,
            },
        );
        m.add(
            "targetSystempwd",
            match &self.target_system_password {
                Some(s) => JsonValue::Str(s.clone()),
                None => JsonValue::Null,
            },
        );
        proof {
            assert(m@ =~= self.members());
        }
        r.set_json(m.into_object());
        r
    }
}

} // verus!
