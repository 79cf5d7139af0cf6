//! Archiving a workflow.

use vstd::prelude::*;

use crate::request::{request_to, url_of, Method, Request, RequestView};
use crate::workflows::{operation_path, write_operation_path};

verus! {

/// The answer to the archiving of a workflow.
#[derive(Clone, Debug, PartialEq, Eq, Hash)]
pub struct WorkflowArchive {
    pub key: String,
}

impl WorkflowArchive {
    /// The key of the archived workflow.
    pub fn key(&self) -> (r: &str)
        ensures
            r@ == self.key@,
    {
        self.key.as_str()
    }
}

/// A request that archives a workflow.
#[derive(Clone, Debug)]
pub struct WorkflowArchiveBuilder {
    pub base_url: String,
    pub key: String,
}

impl WorkflowArchiveBuilder {
    /// The builder as it is first made.
    pub open spec fn is_new(self, base_url: Seq<char>, key: Seq<char>) -> bool {
        &&& self.base_url@ == base_url
        &&& self.key@ == key
    }

    /// A builder that archives the workflow `key`.
    pub fn new(base_url: String, key: &str) -> (r: WorkflowArchiveBuilder)
        ensures
            r.is_new(base_url@, key@),
    {
        WorkflowArchiveBuilder {
            base_url,
            key: String::from_str(key),
        }
    }

    /// The request that this builder describes.
    pub open spec fn spec_request(&self) -> RequestView {
        request_to(Method::Post, url_of(self.base_url@, operation_path(self.key@, "archive"@)))
    }

    /// The request: `POST` on the workflow's archive operation.
    pub fn get_request(&self) -> (r: Request)
        ensures
            r@ == self.spec_request(),
    {
        let path = write_operation_path(self.key.as_str(), "archive");
        let mut r = Request::new(Method::Post, self.base_url.as_str(), &path);
        r
    }
}

} // verus!
