//! Deleting a workflow.

use vstd::prelude::*;

use crate::request::{request_to, url_of, Method, Request, RequestView};
use crate::text::{chars_of, extend_str};
use crate::workflows::WorkflowType;

verus! {

/// The path of a workflow in its collection.
pub open spec fn typed_workflow_path(workflow_type: WorkflowType, key: Seq<char>) -> Seq<char> {
    "/zosmf/workflow/rest/1.0/"@ + workflow_type.text() + seq!['/'] + key
}

/// The path of a workflow in its collection.
pub fn write_typed_workflow_path(workflow_type: WorkflowType, key: &str) -> (r: Vec<char>)
    ensures
        r@ == typed_workflow_path(workflow_type, key@),
{
    let mut v = chars_of("/zosmf/workflow/rest/1.0/");
    extend_str(&mut v, workflow_type.as_str());
    v.push('/');
    extend_str(&mut v, key);
    proof {
        assert(v@ =~= typed_workflow_path(workflow_type, key@));
    }
    v
}

/// A request that deletes a workflow.
#[derive(Clone, Debug)]
pub struct WorkflowDeleteBuilder {
    pub base_url: String,
    pub workflow_type: WorkflowType,
    pub key: String,
}

impl WorkflowDeleteBuilder {
    /// The builder as it is first made.
    pub open spec fn is_new(
        self,
        base_url: Seq<char>,
        workflow_type: WorkflowType,
        key: Seq<char>,
    ) -> bool {
        &&& self.base_url@ == base_url
        &&& self.workflow_type == workflow_type
        &&& self.key@ == key
    }

    /// A builder that deletes the workflow `key` of a collection.
    pub fn new(
        base_url: String,
        workflow_type: WorkflowType,
        key: &str,
    ) -> (r: WorkflowDeleteBuilder)
        ensures
            r.is_new(base_url@, workflow_type, key@),
    {
        WorkflowDeleteBuilder { base_url, workflow_type, key: String::from_str(key) }
    }

    /// The request that this builder describes.
    pub open spec fn spec_request(&self) -> RequestView {
        request_to(Method::Delete, url_of(self.base_url@, typed_workflow_path(self.workflow_type, self.key@)))
    }

    /// The request: `DELETE` on the workflow.
    pub fn get_request(&self) -> (r: Request)
        ensures
            r@ == self.spec_request(),
    {
        let path = write_typed_workflow_path(self.workflow_type, self.key.as_str());
        Request::new(Method::Delete, self.base_url.as_str(), &path)
    }
}

} // verus!
