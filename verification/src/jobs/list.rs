//! Listing jobs.

use vstd::prelude::*;

use crate::jobs::{subsystem_text, write_subsystem};
use crate::request::{
    lemma_query_if_values, lemma_query_opt_values, opt_values, opt_view, request_to, url_of,
    values_named, Method, Request, RequestView,
};
use crate::text::{chars_of, i32_chars, signed_decimal, string_of};

verus! {

/// A request that lists jobs.
#[derive(Clone, Debug)]
pub struct JobListBuilder {
    pub base_url: String,
    pub subsystem: Option<String>,
    pub owner: Option<String>,
    pub prefix: Option<String>,
    pub job_id: Option<String>,
    pub max_jobs: Option<i32>,
    pub user_correlator: Option<String>,
    pub exec_data: Option<bool>,
    pub active_only: Option<bool>,
}

/// The text of an optional number.
pub open spec fn opt_number(n: Option<i32>) -> Option<Seq<char>> {
    match n {
        Some(v) => Some(signed_decimal(v as int)),
        None => None,
    }
}

/// The text of an optional number.
pub fn opt_number_string(n: Option<i32>) -> (r: Option<String>)
    ensures
        opt_view(r) == opt_number(n),
{
    match n {
        Some(v) => Some(string_of(&i32_chars(v))),
        None => None,
    }
}

impl JobListBuilder {
    /// The builder as it is first made.
    pub open spec fn is_new(self, base_url: Seq<char>) -> bool {
        &&& self.base_url@ == base_url
        &&& self.subsystem is None
        &&& self.owner is None
        &&& self.prefix is None
        &&& self.job_id is None
        &&& self.max_jobs is None
        &&& self.user_correlator is None
        &&& self.exec_data is None
        &&& self.active_only is None
    }

    /// A builder that lists all jobs.
    pub fn new(base_url: String) -> (r: JobListBuilder)
        ensures
            r.is_new(base_url@),
    {
        JobListBuilder {
            base_url,
            subsystem: None,
            owner: None,
            prefix: None,
            job_id: None,
            max_jobs: None,
            user_correlator: None,
            exec_data: None,
            active_only: None,
        }
    }

    /// Names the subsystem of the jobs.
    pub fn subsystem(self, value: &str) -> (r: JobListBuilder)
        ensures
            r.subsystem matches Some(s) && s@ == value@,
            r == (JobListBuilder { subsystem: r.subsystem, ..self }),
    {
        JobListBuilder { subsystem: Some(String::from_str(value)), ..self }
    }

    /// Lists the jobs of an owner.
    pub fn owner(self, value: &str) -> (r: JobListBuilder)
        ensures
            r.owner matches Some(s) && s@ == value@,
            r == (JobListBuilder { owner: r.owner, ..self }),
    {
        JobListBuilder { owner: Some(String::from_str(value)), ..self }
    }

    /// Lists the jobs whose names start with a prefix.
    pub fn prefix(self, value: &str) -> (r: JobListBuilder)
        ensures
            r.prefix matches Some(s) && s@ == value@,
            r == (JobListBuilder { prefix: r.prefix, ..self }),
    {
        JobListBuilder { prefix: Some(String::from_str(value)), ..self }
    }

    /// Lists the jobs with an id.
    pub fn job_id(self, value: &str) -> (r: JobListBuilder)
        ensures
            r.job_id matches Some(s) && s@ == value@,
            r == (JobListBuilder { job_id: r.job_id, ..self }),
    {
        JobListBuilder { job_id: Some(String::from_str(value)), ..self }
    }

    /// Lists at most this many jobs.
    pub fn max_jobs(self, value: i32) -> (r: JobListBuilder)
        ensures
            r == (JobListBuilder { max_jobs: Some(value), ..self }),
    {
        JobListBuilder { max_jobs: Some(value), ..self }
    }

    /// Lists the jobs with a user correlator.
    pub fn user_correlator(self, value: &str) -> (r: JobListBuilder)
        ensures
            r.user_correlator matches Some(s) && s@ == value@,
            r == (JobListBuilder { user_correlator: r.user_correlator, ..self }),
    {
        JobListBuilder { user_correlator: Some(String::from_str(value)), ..self }
    }

    /// Lists only the active jobs, or not.
    pub fn active_only(self, value: bool) -> (r: JobListBuilder)
        ensures
            r == (JobListBuilder { active_only: Some(value), ..self }),
    {
        JobListBuilder { active_only: Some(value), ..self }
    }

    /// Asks for the execution data of each job.
    pub fn exec_data(self) -> (r: JobListBuilder)
        ensures
            r == (JobListBuilder { exec_data: Some(true), ..self }),
    {
        JobListBuilder { exec_data: Some(true), ..self }
    }

    /// The request that this builder describes.
    pub open spec fn spec_request(&self) -> RequestView {
        request_to(
            Method::Get,
            url_of(self.base_url@, "/zosmf/restjobs/jobs"@ + subsystem_text(opt_view(self.subsystem))),
        )
            .with_query_opt("owner"@, opt_view(self.owner))
            .with_query_opt("prefix"@, opt_view(self.prefix))
            .with_query_opt("jobid"@, opt_view(self.job_id))
            .with_query_opt("max-jobs"@, opt_number(self.max_jobs))
            .with_query_opt("user-correlator"@, opt_view(self.user_correlator))
            .with_query_if(self.exec_data == Some(true), "exec-data"@, "Y"@)
            .with_query_if(self.active_only == Some(true), "status"@, "active"@)
    }

    /// The request: `GET` on the jobs, with the filters as query parameters.
    pub fn get_request(&self) -> (r: Request)
        ensures
            r@ == self.spec_request(),
    {
        let mut path = chars_of("/zosmf/restjobs/jobs");
        write_subsystem(&mut path, &self.subsystem);
        let mut r = Request::new(Method::Get, self.base_url.as_str(), &path);
        r.add_query_opt("owner", &self.owner);
        r.add_query_opt("prefix", &self.prefix);
        r.add_query_opt("jobid", &self.job_id);
        r.add_query_opt("max-jobs", &opt_number_string(self.max_jobs));
        r.add_query_opt("user-correlator", &self.user_correlator);
        r.add_query_if(self.exec_data == Some(true), "exec-data", "Y");
        r.add_query_if(self.active_only == Some(true), "status", "active");
        r
    }
}

/// Each filter of a job listing that is set appears in the query under its
/// own name, once, with its value, and a filter that is not set does not
/// appear: `status=active` exactly when only active jobs are asked for, and
/// `exec-data=Y` exactly when exec data is asked for.
pub proof fn list_query_filters(b: JobListBuilder)
    ensures
        values_named(b.spec_request().query, "status"@) == (if b.active_only == Some(true) {
            seq!["active"@]
        } else {
            Seq::<Seq<char>>::empty()
        }),
        values_named(b.spec_request().query, "exec-data"@) == (if b.exec_data == Some(true) {
            seq!["Y"@]
        } else {
            Seq::<Seq<char>>::empty()
        }),
        values_named(b.spec_request().query, "owner"@) == opt_values(opt_view(b.owner)),
        values_named(b.spec_request().query, "prefix"@) == opt_values(opt_view(b.prefix)),
        values_named(b.spec_request().query, "jobid"@) == opt_values(opt_view(b.job_id)),
        values_named(b.spec_request().query, "max-jobs"@) == opt_values(opt_number(b.max_jobs)),
        values_named(b.spec_request().query, "user-correlator"@) == opt_values(
            opt_view(b.user_correlator),
        ),
{
    reveal_strlit("exec-data");
    reveal_strlit("jobid");
    reveal_strlit("max-jobs");
    reveal_strlit("owner");
    reveal_strlit("prefix");
    reveal_strlit("status");
    reveal_strlit("user-correlator");
    assert("exec-data"@[0] != "jobid"@[0]);
    assert("exec-data"@[0] != "max-jobs"@[0]);
    assert("exec-data"@[0] != "owner"@[0]);
    assert("exec-data"@[0] != "prefix"@[0]);
    assert("exec-data"@[0] != "status"@[0]);
    assert("exec-data"@[0] != "user-correlator"@[0]);
    assert("jobid"@[0] != "max-jobs"@[0]);
    assert("jobid"@[0] != "owner"@[0]);
    assert("jobid"@[0] != "prefix"@[0]);
    assert("jobid"@[0] != "status"@[0]);
    assert("jobid"@[0] != "user-correlator"@[0]);
    assert("max-jobs"@[0] != "owner"@[0]);
    assert("max-jobs"@[0] != "prefix"@[0]);
    assert("max-jobs"@[0] != "status"@[0]);
    assert("max-jobs"@[0] != "user-correlator"@[0]);
    assert("owner"@[0] != "prefix"@[0]);
    assert("owner"@[0] != "status"@[0]);
    assert("owner"@[0] != "user-correlator"@[0]);
    assert("prefix"@[0] != "status"@[0]);
    assert("prefix"@[0] != "user-correlator"@[0]);
    assert("status"@[0] != "user-correlator"@[0]);
    let r0 = request_to(
        Method::Get,
        url_of(b.base_url@, "/zosmf/restjobs/jobs"@ + subsystem_text(opt_view(b.subsystem))),
    );
    let r1 = r0.with_query_opt("owner"@, opt_view(b.owner));
    lemma_query_opt_values(r0, "owner"@, opt_view(b.owner), "owner"@);
    lemma_query_opt_values(r0, "owner"@, opt_view(b.owner), "prefix"@);
    lemma_query_opt_values(r0, "owner"@, opt_view(b.owner), "jobid"@);
    lemma_query_opt_values(r0, "owner"@, opt_view(b.owner), "max-jobs"@);
    lemma_query_opt_values(r0, "owner"@, opt_view(b.owner), "user-correlator"@);
    lemma_query_opt_values(r0, "owner"@, opt_view(b.owner), "exec-data"@);
    lemma_query_opt_values(r0, "owner"@, opt_view(b.owner), "status"@);
    let r2 = r1.with_query_opt("prefix"@, opt_view(b.prefix));
    lemma_query_opt_values(r1, "prefix"@, opt_view(b.prefix), "owner"@);
    lemma_query_opt_values(r1, "prefix"@, opt_view(b.prefix), "prefix"@);
    lemma_query_opt_values(r1, "prefix"@, opt_view(b.prefix), "jobid"@);
    lemma_query_opt_values(r1, "prefix"@, opt_view(b.prefix), "max-jobs"@);
    lemma_query_opt_values(r1, "prefix"@, opt_view(b.prefix), "user-correlator"@);
    lemma_query_opt_values(r1, "prefix"@, opt_view(b.prefix), "exec-data"@);
    lemma_query_opt_values(r1, "prefix"@, opt_view(b.prefix), "status"@);
    let r3 = r2.with_query_opt("jobid"@, opt_view(b.job_id));
    lemma_query_opt_values(r2, "jobid"@, opt_view(b.job_id), "owner"@);
    lemma_query_opt_values(r2, "jobid"@, opt_view(b.job_id), "prefix"@);
    lemma_query_opt_values(r2, "jobid"@, opt_view(b.job_id), "jobid"@);
    lemma_query_opt_values(r2, "jobid"@, opt_view(b.job_id), "max-jobs"@);
    lemma_query_opt_values(r2, "jobid"@, opt_view(b.job_id), "user-correlator"@);
    lemma_query_opt_values(r2, "jobid"@, opt_view(b.job_id), "exec-data"@);
    lemma_query_opt_values(r2, "jobid"@, opt_view(b.job_id), "status"@);
    let r4 = r3.with_query_opt("max-jobs"@, opt_number(b.max_jobs));
    lemma_query_opt_values(r3, "max-jobs"@, opt_number(b.max_jobs), "owner"@);
    lemma_query_opt_values(r3, "max-jobs"@, opt_number(b.max_jobs), "prefix"@);
    lemma_query_opt_values(r3, "max-jobs"@, opt_number(b.max_jobs), "jobid"@);
    lemma_query_opt_values(r3, "max-jobs"@, opt_number(b.max_jobs), "max-jobs"@);
    lemma_query_opt_values(r3, "max-jobs"@, opt_number(b.max_jobs), "user-correlator"@);
    lemma_query_opt_values(r3, "max-jobs"@, opt_number(b.max_jobs), "exec-data"@);
    lemma_query_opt_values(r3, "max-jobs"@, opt_number(b.max_jobs), "status"@);
    let r5 = r4.with_query_opt("user-correlator"@, opt_view(b.user_correlator));
    lemma_query_opt_values(r4, "user-correlator"@, opt_view(b.user_correlator), "owner"@);
    lemma_query_opt_values(r4, "user-correlator"@, opt_view(b.user_correlator), "prefix"@);
    lemma_query_opt_values(r4, "user-correlator"@, opt_view(b.user_correlator), "jobid"@);
    lemma_query_opt_values(r4, "user-correlator"@, opt_view(b.user_correlator), "max-jobs"@);
    lemma_query_opt_values(r4, "user-correlator"@, opt_view(b.user_correlator), "user-correlator"@);
    lemma_query_opt_values(r4, "user-correlator"@, opt_view(b.user_correlator), "exec-data"@);
    lemma_query_opt_values(r4, "user-correlator"@, opt_view(b.user_correlator), "status"@);
    let r6 = r5.with_query_if(b.exec_data == Some(true), "exec-data"@, "Y"@);
    lemma_query_if_values(r5, b.exec_data == Some(true), "exec-data"@, "Y"@, "owner"@);
    lemma_query_if_values(r5, b.exec_data == Some(true), "exec-data"@, "Y"@, "prefix"@);
    lemma_query_if_values(r5, b.exec_data == Some(true), "exec-data"@, "Y"@, "jobid"@);
    lemma_query_if_values(r5, b.exec_data == Some(true), "exec-data"@, "Y"@, "max-jobs"@);
    lemma_query_if_values(r5, b.exec_data == Some(true), "exec-data"@, "Y"@, "user-correlator"@);
    lemma_query_if_values(r5, b.exec_data == Some(true), "exec-data"@, "Y"@, "exec-data"@);
    lemma_query_if_values(r5, b.exec_data == Some(true), "exec-data"@, "Y"@, "status"@);
    let r7 = r6.with_query_if(b.active_only == Some(true), "status"@, "active"@);
    lemma_query_if_values(r6, b.active_only == Some(true), "status"@, "active"@, "owner"@);
    lemma_query_if_values(r6, b.active_only == Some(true), "status"@, "active"@, "prefix"@);
    lemma_query_if_values(r6, b.active_only == Some(true), "status"@, "active"@, "jobid"@);
    lemma_query_if_values(r6, b.active_only == Some(true), "status"@, "active"@, "max-jobs"@);
    lemma_query_if_values(r6, b.active_only == Some(true), "status"@, "active"@, "user-correlator"@);
    lemma_query_if_values(r6, b.active_only == Some(true), "status"@, "active"@, "exec-data"@);
    lemma_query_if_values(r6, b.active_only == Some(true), "status"@, "active"@, "status"@);
    assert(Seq::<Seq<char>>::empty().push("Y"@) =~= seq!["Y"@]);
    assert(Seq::<Seq<char>>::empty().push("active"@) =~= seq!["active"@]);
    assert(Seq::<Seq<char>>::empty() + opt_values(opt_view(b.owner)) =~= opt_values(opt_view(b.owner)));
    assert(Seq::<Seq<char>>::empty() + opt_values(opt_view(b.prefix)) =~= opt_values(opt_view(b.prefix)));
    assert(Seq::<Seq<char>>::empty() + opt_values(opt_view(b.job_id)) =~= opt_values(opt_view(b.job_id)));
    assert(Seq::<Seq<char>>::empty() + opt_values(opt_number(b.max_jobs)) =~= opt_values(opt_number(b.max_jobs)));
    assert(Seq::<Seq<char>>::empty() + opt_values(opt_view(b.user_correlator)) =~= opt_values(opt_view(b.user_correlator)));
}

/// The jobs of a listing.
#[derive(Clone, Debug, PartialEq, Eq, Hash)]
pub struct JobList<T> {
    pub items: Vec<T>,
}

impl<T> JobList<T> {
    /// The jobs, in the order of the answer.
    pub fn items(&self) -> (r: &Vec<T>)
        ensures
            r == &self.items,
    {
        &self.items
    }
}

} // verus!
