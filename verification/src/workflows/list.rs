//! Listing workflows.

use vstd::prelude::*;

use crate::request::{
    lemma_query_opt_values, opt_values, opt_view, request_to, url_of, values_named, Method,
    Request, RequestView,
};
use crate::text::chars_of;
use crate::workflows::{WorkflowAccess, WorkflowStatus};

verus! {

/// The category of a workflow.
#[derive(Clone, Copy, Debug, PartialEq, Eq, Structural, Hash)]
pub enum WorkflowCategory {
    Configuration,
    General,
}

impl WorkflowCategory {
    /// The name of this value in requests and answers.
    pub open spec fn text(self) -> Seq<char> {
        match self {
            WorkflowCategory::Configuration => "configuration"@,
            WorkflowCategory::General => "general"@,
        }
    }

    /// The name of this value in requests and answers.
    pub fn as_str(&self) -> (r: &'static str)
        ensures
            r@ == self.text(),
    {
        match self {
            WorkflowCategory::Configuration => "configuration",
            WorkflowCategory::General => "general",
        }
    }
}

/// A workflow of a listing.
#[derive(Clone, Debug, PartialEq, Eq, Hash)]
pub struct WorkflowInfo {
    pub name: String,
    pub key: String,
    pub description: String,
    pub id: String,
    pub version: String,
    pub definition_file_hash: String,
    pub instance_uri: String,
    pub owner: String,
    pub vendor: String,
    pub access: WorkflowAccess,
}

impl WorkflowInfo {
    /// The workflow's name.
    pub fn name(&self) -> (r: &str)
        ensures
            r@ == self.name@,
    {
        self.name.as_str()
    }

    /// The workflow's key.
    pub fn key(&self) -> (r: &str)
        ensures
            r@ == self.key@,
    {
        self.key.as_str()
    }

    /// The workflow's description.
    pub fn description(&self) -> (r: &str)
        ensures
            r@ == self.description@,
    {
        self.description.as_str()
    }

    /// The workflow's id.
    pub fn id(&self) -> (r: &str)
        ensures
            r@ == self.id@,
    {
        self.id.as_str()
    }

    /// The workflow's version.
    pub fn version(&self) -> (r: &str)
        ensures
            r@ == self.version@,
    {
        self.version.as_str()
    }

    /// The MD5 hash of the workflow's definition file.
    pub fn definition_file_hash(&self) -> (r: &str)
        ensures
            r@ == self.definition_file_hash@,
    {
        self.definition_file_hash.as_str()
    }

    /// The URI of the workflow.
    pub fn instance_uri(&self) -> (r: &str)
        ensures
            r@ == self.instance_uri@,
    {
        self.instance_uri.as_str()
    }

    /// The owner.
    pub fn owner(&self) -> (r: &str)
        ensures
            r@ == self.owner@,
    {
        self.owner.as_str()
    }

    /// The vendor.
    pub fn vendor(&self) -> (r: &str)
        ensures
            r@ == self.vendor@,
    {
        self.vendor.as_str()
    }

    /// Who may see the workflow.
    pub fn access(&self) -> (r: WorkflowAccess)
        ensures
            r == self.access,
    {
        self.access
    }
}

/// The workflows of a listing.
#[derive(Clone, Debug, PartialEq, Eq, Hash)]
pub struct WorkflowList {
    pub items: Vec<WorkflowInfo>,
}

impl WorkflowList {
    /// The workflows, in the order of the answer.
    pub fn items(&self) -> (r: &Vec<WorkflowInfo>)
        ensures
            r == &self.items,
    {
        &self.items
    }
}

/// A request that lists workflows.
#[derive(Clone, Debug)]
pub struct WorkflowListBuilder {
    pub base_url: String,
    pub name: Option<String>,
    pub category: Option<WorkflowCategory>,
    pub system: Option<String>,
    pub status: Option<WorkflowStatus>,
    pub owner: Option<String>,
    pub vendor: Option<String>,
}

impl WorkflowListBuilder {
    /// The builder as it is first made.
    pub open spec fn is_new(self, base_url: Seq<char>) -> bool {
        &&& self.base_url@ == base_url
        &&& self.name is None
        &&& self.category is None
        &&& self.system is None
        &&& self.status is None
        &&& self.owner is None
        &&& self.vendor is None
    }

    /// A builder that lists every workflow.
    pub fn new(base_url: String) -> (r: WorkflowListBuilder)
        ensures
            r.is_new(base_url@),
    {
        WorkflowListBuilder {
            base_url,
            name: None,
            category: None,
            system: None,
            status: None,
            owner: None,
            vendor: None,
        }
    }

    /// Lists only the workflows with this name.
    pub fn name(self, value: &str) -> (r: WorkflowListBuilder)
        ensures
            r.name matches Some(s) && s@ == value@,
            r == (WorkflowListBuilder { name: r.name, ..self }),
    {
        WorkflowListBuilder { name: Some(String::from_str(value)), ..self }
    }

    /// Lists only the workflows of this category.
    pub fn category(self, value: WorkflowCategory) -> (r: WorkflowListBuilder)
        ensures
            r == (WorkflowListBuilder { category: Some(value), ..self }),
    {
        WorkflowListBuilder { category: Some(value), ..self }
    }

    /// Lists only the workflows of this system.
    pub fn system(self, value: &str) -> (r: WorkflowListBuilder)
        ensures
            r.system matches Some(s) && s@ == value@,
            r == (WorkflowListBuilder { system: r.system, ..self }),
    {
        WorkflowListBuilder { system: Some(String::from_str(value)), ..self }
    }

    /// Lists only the workflows in this state.
    pub fn status(self, value: WorkflowStatus) -> (r: WorkflowListBuilder)
        ensures
            r == (WorkflowListBuilder { status: Some(value), ..self }),
    {
        WorkflowListBuilder { status: Some(value), ..self }
    }

    /// Lists only the workflows of this owner.
    pub fn owner(self, value: &str) -> (r: WorkflowListBuilder)
        ensures
            r.owner matches Some(s) && s@ == value@,
            r == (WorkflowListBuilder { owner: r.owner, ..self }),
    {
        WorkflowListBuilder { owner: Some(String::from_str(value)), ..self }
    }

    /// Lists only the workflows of this vendor.
    pub fn vendor(self, value: &str) -> (r: WorkflowListBuilder)
        ensures
            r.vendor matches Some(s) && s@ == value@,
            r == (WorkflowListBuilder { vendor: r.vendor, ..self }),
    {
        WorkflowListBuilder { vendor: Some(String::from_str(value)), ..self }
    }

    /// The request that this builder describes.
    pub open spec fn spec_request(&self) -> RequestView {
        request_to(Method::Get, url_of(self.base_url@, "/zosmf/workflow/rest/1.0/workflows"@))
            .with_query_opt("workflowName"@, opt_view(self.name))
            .with_query_opt("category"@, match self.category { Some(v) => Some(v.text()), None => None })
            .with_query_opt("system"@, opt_view(self.system))
            .with_query_opt("statusName"@, match self.status { Some(v) => Some(v.text()), None => None })
            .with_query_opt("owner"@, opt_view(self.owner))
            .with_query_opt("vendor"@, opt_view(self.vendor))
    }

    /// The request: `GET` on the workflows, with the filters as query parameters.
    pub fn get_request(&self) -> (r: Request)
        ensures
            r@ == self.spec_request(),
    {
        let path = chars_of("/zosmf/workflow/rest/1.0/workflows");
        let mut r = Request::new(Method::Get, self.base_url.as_str(), &path);
        r.add_query_opt("workflowName", &self.name);
        let category = match self.category {
            Some(v) => Some(String::from_str(v.as_str())),
            None => None,
        };
        r.add_query_opt("category", &category);
        r.add_query_opt("system", &self.system);
        let status = match self.status {
            Some(v) => Some(String::from_str(v.as_str())),
            None => None,
        };
        r.add_query_opt("statusName", &status);
        r.add_query_opt("owner", &self.owner);
        r.add_query_opt("vendor", &self.vendor);
        r
    }
}

/// Each filter of a workflow listing that is set appears in the query under
/// its own name, once, with its value, and a filter that is not set does not
/// appear: `owner=o` exactly when the owner `o` was named, and likewise for
/// the name, category, system, status and vendor.
pub proof fn list_query_filters(b: WorkflowListBuilder)
    ensures
        values_named(b.spec_request().query, "workflowName"@) == opt_values(opt_view(b.name)),
        values_named(b.spec_request().query, "category"@) == opt_values((match b.category { Some(v) => Some(v.text()), None => None })),
        values_named(b.spec_request().query, "system"@) == opt_values(opt_view(b.system)),
        values_named(b.spec_request().query, "statusName"@) == opt_values((match b.status { Some(v) => Some(v.text()), None => None })),
        values_named(b.spec_request().query, "owner"@) == opt_values(opt_view(b.owner)),
        values_named(b.spec_request().query, "vendor"@) == opt_values(opt_view(b.vendor)),
{
    reveal_strlit("category");
    reveal_strlit("owner");
    reveal_strlit("statusName");
    reveal_strlit("system");
    reveal_strlit("vendor");
    reveal_strlit("workflowName");
    assert("category"@[0] != "owner"@[0]);
    assert("category"@[0] != "statusName"@[0]);
    assert("category"@[0] != "system"@[0]);
    assert("category"@[0] != "vendor"@[0]);
    assert("category"@[0] != "workflowName"@[0]);
    assert("owner"@[0] != "statusName"@[0]);
    assert("owner"@[0] != "system"@[0]);
    assert("owner"@[0] != "vendor"@[0]);
    assert("owner"@[0] != "workflowName"@[0]);
    assert("statusName"@[1] != "system"@[1]);
    assert("statusName"@[0] != "vendor"@[0]);
    assert("statusName"@[0] != "workflowName"@[0]);
    assert("system"@[0] != "vendor"@[0]);
    assert("system"@[0] != "workflowName"@[0]);
    assert("vendor"@[0] != "workflowName"@[0]);
    let r0 = request_to(Method::Get, url_of(b.base_url@, "/zosmf/workflow/rest/1.0/workflows"@));
    let r1 = r0.with_query_opt("workflowName"@, opt_view(b.name));
    lemma_query_opt_values(r0, "workflowName"@, opt_view(b.name), "workflowName"@);
    lemma_query_opt_values(r0, "workflowName"@, opt_view(b.name), "category"@);
    lemma_query_opt_values(r0, "workflowName"@, opt_view(b.name), "system"@);
    lemma_query_opt_values(r0, "workflowName"@, opt_view(b.name), "statusName"@);
    lemma_query_opt_values(r0, "workflowName"@, opt_view(b.name), "owner"@);
    lemma_query_opt_values(r0, "workflowName"@, opt_view(b.name), "vendor"@);
    let r2 = r1.with_query_opt("category"@, match b.category { Some(v) => Some(v.text()), None => None });
    lemma_query_opt_values(r1, "category"@, match b.category { Some(v) => Some(v.text()), None => None }, "workflowName"@);
    lemma_query_opt_values(r1, "category"@, match b.category { Some(v) => Some(v.text()), None => None }, "category"@);
    lemma_query_opt_values(r1, "category"@, match b.category { Some(v) => Some(v.text()), None => None }, "system"@);
    lemma_query_opt_values(r1, "category"@, match b.category { Some(v) => Some(v.text()), None => None }, "statusName"@);
    lemma_query_opt_values(r1, "category"@, match b.category { Some(v) => Some(v.text()), None => None }, "owner"@);
    lemma_query_opt_values(r1, "category"@, match b.category { Some(v) => Some(v.text()), None => None }, "vendor"@);
    let r3 = r2.with_query_opt("system"@, opt_view(b.system));
    lemma_query_opt_values(r2, "system"@, opt_view(b.system), "workflowName"@);
    lemma_query_opt_values(r2, "system"@, opt_view(b.system), "category"@);
    lemma_query_opt_values(r2, "system"@, opt_view(b.system), "system"@);
    lemma_query_opt_values(r2, "system"@, opt_view(b.system), "statusName"@);
    lemma_query_opt_values(r2, "system"@, opt_view(b.system), "owner"@);
    lemma_query_opt_values(r2, "system"@, opt_view(b.system), "vendor"@);
    let r4 = r3.with_query_opt("statusName"@, match b.status { Some(v) => Some(v.text()), None => None });
    lemma_query_opt_values(r3, "statusName"@, match b.status { Some(v) => Some(v.text()), None => None }, "workflowName"@);
    lemma_query_opt_values(r3, "statusName"@, match b.status { Some(v) => Some(v.text()), None => None }, "category"@);
    lemma_query_opt_values(r3, "statusName"@, match b.status { Some(v) => Some(v.text()), None => None }, "system"@);
    lemma_query_opt_values(r3, "statusName"@, match b.status { Some(v) => Some(v.text()), None => None }, "statusName"@);
    lemma_query_opt_values(r3, "statusName"@, match b.status { Some(v) => Some(v.text()), None => None }, "owner"@);
    lemma_query_opt_values(r3, "statusName"@, match b.status { Some(v) => Some(v.text()), None => None }, "vendor"@);
    let r5 = r4.with_query_opt("owner"@, opt_view(b.owner));
    lemma_query_opt_values(r4, "owner"@, opt_view(b.owner), "workflowName"@);
    lemma_query_opt_values(r4, "owner"@, opt_view(b.owner), "category"@);
    lemma_query_opt_values(r4, "owner"@, opt_view(b.owner), "system"@);
    lemma_query_opt_values(r4, "owner"@, opt_view(b.owner), "statusName"@);
    lemma_query_opt_values(r4, "owner"@, opt_view(b.owner), "owner"@);
    lemma_query_opt_values(r4, "owner"@, opt_view(b.owner), "vendor"@);
    let r6 = r5.with_query_opt("vendor"@, opt_view(b.vendor));
    lemma_query_opt_values(r5, "vendor"@, opt_view(b.vendor), "workflowName"@);
    lemma_query_opt_values(r5, "vendor"@, opt_view(b.vendor), "category"@);
    lemma_query_opt_values(r5, "vendor"@, opt_view(b.vendor), "system"@);
    lemma_query_opt_values(r5, "vendor"@, opt_view(b.vendor), "statusName"@);
    lemma_query_opt_values(r5, "vendor"@, opt_view(b.vendor), "owner"@);
    lemma_query_opt_values(r5, "vendor"@, opt_view(b.vendor), "vendor"@);
    assert(Seq::<Seq<char>>::empty() + opt_values(opt_view(b.name)) =~= opt_values(opt_view(b.name)));
    assert(Seq::<Seq<char>>::empty() + opt_values((match b.category { Some(v) => Some(v.text()), None => None })) =~= opt_values((match b.category { Some(v) => Some(v.text()), None => None })));
    assert(Seq::<Seq<char>>::empty() + opt_values(opt_view(b.system)) =~= opt_values(opt_view(b.system)));
    assert(Seq::<Seq<char>>::empty() + opt_values((match b.status { Some(v) => Some(v.text()), None => None })) =~= opt_values((match b.status { Some(v) => Some(v.text()), None => None })));
    assert(Seq::<Seq<char>>::empty() + opt_values(opt_view(b.owner)) =~= opt_values(opt_view(b.owner)));
    assert(Seq::<Seq<char>>::empty() + opt_values(opt_view(b.vendor)) =~= opt_values(opt_view(b.vendor)));
}

} // verus!
