//! Listing archived workflows.

use vstd::prelude::*;

use crate::request::{request_to, url_of, Method, Request, RequestView};
use crate::text::chars_of;

verus! {

/// An archived workflow.
#[derive(Clone, Debug, PartialEq, Eq, Hash)]
pub struct ArchivedWorkflow {
    pub name: String,
    pub key: String,
    pub uri: String,
}

impl ArchivedWorkflow {
    /// The workflow's name.
    pub fn name(&self) -> (r: &str)
        ensures
            r@ == self.name@,
    {
        self.name.as_str()
    }

    /// The workflow's key.
    pub fn key(&self) -> (r: &str)
        ensures
            r@ == self.key@,
    {
        self.key.as_str()
    }

    /// The URI of the archived workflow.
    pub fn uri(&self) -> (r: &str)
        ensures
            r@ == self.uri@,
    {
        self.uri.as_str()
    }
}

/// The archived workflows of a listing.
#[derive(Clone, Debug, PartialEq, Eq, Hash)]
pub struct ArchivedWorkflowList {
    pub items: Vec<ArchivedWorkflow>,
}

impl ArchivedWorkflowList {
    /// The archived workflows, in the order of the answer.
    pub fn items(&self) -> (r: &Vec<ArchivedWorkflow>)
        ensures
            r == &self.items,
    {
        &self.items
    }
}

/// The order of a listing of archived workflows.
#[derive(Clone, Copy, Debug, PartialEq, Eq, Structural, Hash)]
pub enum WorkflowOrderBy {
    Asc,
    Desc,
}

impl WorkflowOrderBy {
    /// The name of this value in requests and answers.
    pub open spec fn text(self) -> Seq<char> {
        match self {
            WorkflowOrderBy::Asc => "Asc"@,
            WorkflowOrderBy::Desc => "Desc"@,
        }
    }

    /// The name of this value in requests and answers.
    pub fn as_str(&self) -> (r: &'static str)
        ensures
            r@ == self.text(),
    {
        match self {
            WorkflowOrderBy::Asc => "Asc",
            WorkflowOrderBy::Desc => "Desc",
        }
    }
}

/// Whose archived workflows are listed.
#[derive(Clone, Copy, Debug, PartialEq, Eq, Structural, Hash)]
pub enum WorkflowView {
    Domain,
    User,
}

impl WorkflowView {
    /// The name of this value in requests and answers.
    pub open spec fn text(self) -> Seq<char> {
        match self {
            WorkflowView::Domain => "Domain"@,
            WorkflowView::User => "User"@,
        }
    }

    /// The name of this value in requests and answers.
    pub fn as_str(&self) -> (r: &'static str)
        ensures
            r@ == self.text(),
    {
        match self {
            WorkflowView::Domain => "Domain",
            WorkflowView::User => "User",
        }
    }
}

impl Default for WorkflowView {
    fn default() -> (r: WorkflowView)
        ensures
            r == WorkflowView::User,
    {
        WorkflowView::User
    }
}

/// A request that lists archived workflows.
#[derive(Clone, Debug)]
pub struct ArchivedWorkflowListBuilder {
    pub base_url: String,
    pub order_by: Option<WorkflowOrderBy>,
    pub view: Option<WorkflowView>,
}

impl ArchivedWorkflowListBuilder {
    /// The builder as it is first made.
    pub open spec fn is_new(self, base_url: Seq<char>) -> bool {
        &&& self.base_url@ == base_url
        &&& self.order_by is None
        &&& self.view is None
    }

    /// A builder that lists archived workflows.
    pub fn new(base_url: String) -> (r: ArchivedWorkflowListBuilder)
        ensures
            r.is_new(base_url@),
    {
        ArchivedWorkflowListBuilder { base_url, order_by: None, view: None }
    }

    /// Sets the order of the listing.
    pub fn order_by(self, value: WorkflowOrderBy) -> (r: ArchivedWorkflowListBuilder)
        ensures
            r == (ArchivedWorkflowListBuilder { order_by: Some(value), ..self }),
    {
        ArchivedWorkflowListBuilder { order_by: Some(value), ..self }
    }

    /// Sets whose workflows are listed.
    pub fn view(self, value: WorkflowView) -> (r: ArchivedWorkflowListBuilder)
        ensures
            r == (ArchivedWorkflowListBuilder { view: Some(value), ..self }),
    {
        ArchivedWorkflowListBuilder { view: Some(value), ..self }
    }

    /// The request that this builder describes.
    pub open spec fn spec_request(&self) -> RequestView {
        request_to(Method::Get, url_of(self.base_url@, "/zosmf/workflow/rest/1.0/archivedworkflows"@))
            .with_query_opt("Orderby"@, match self.order_by { Some(v) => Some(v.text()), None => None })
            .with_query_opt("View"@, match self.view { Some(v) => Some(v.text()), None => None })
    }

    /// The request: `GET` on the archived workflows, with the order and the view as query parameters.
    pub fn get_request(&self) -> (r: Request)
        ensures
            r@ == self.spec_request(),
    {
        let path = chars_of("/zosmf/workflow/rest/1.0/archivedworkflows");
        let mut r = Request::new(Method::Get, self.base_url.as_str(), &path);
        let order_by = match self.order_by {
            Some(v) => Some(String::from_str(v.as_str())),
            None => None,
        };
        r.add_query_opt("Orderby", &order_by);
        let view = match self.view {
            Some(v) => Some(String::from_str(v.as_str())),
            None => None,
        };
        r.add_query_opt("View", &view);
        r
    }
}

} // verus!
