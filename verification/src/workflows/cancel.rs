//! Cancelling a workflow.

use vstd::prelude::*;

use crate::request::{request_to, url_of, Method, Request, RequestView};
use crate::workflows::{operation_path, write_operation_path};

verus! {

/// The answer to the cancelling of a workflow: the workflow's name.
#[derive(Clone, Debug, PartialEq, Eq, Hash)]
pub struct WorkflowCancel {
    pub inner: String,
}

impl WorkflowCancel {
    /// The name of the cancelled workflow.
    pub fn as_str(&self) -> (r: &str)
        ensures
            r@ == self.inner@,
    {
        self.inner.as_str()
    }
}

/// A request that cancels a workflow.
#[derive(Clone, Debug)]
pub struct WorkflowCancelBuilder {
    pub base_url: String,
    pub key: String,
}

impl WorkflowCancelBuilder {
    /// The builder as it is first made.
    pub open spec fn is_new(self, base_url: Seq<char>, key: Seq<char>) -> bool {
        &&& self.base_url@ == base_url
        &&& self.key@ == key
    }

    /// A builder that cancels the workflow `key`.
    pub fn new(base_url: String, key: &str) -> (r: WorkflowCancelBuilder)
        ensures
            r.is_new(base_url@, key@),
    {
        WorkflowCancelBuilder {
            base_url,
            key: String::from_str(key),
        }
    }

    /// The request that this builder describes.
    pub open spec fn spec_request(&self) -> RequestView {
        request_to(Method::Put, url_of(self.base_url@, operation_path(self.key@, "cancel"@)))
    }

    /// The request: `PUT` on the workflow's cancel operation.
    pub fn get_request(&self) -> (r: Request)
        ensures
            r@ == self.spec_request(),
    {
        let path = write_operation_path(self.key.as_str(), "cancel");
        let mut r = Request::new(Method::Put, self.base_url.as_str(), &path);
        r
    }
}

} // verus!
