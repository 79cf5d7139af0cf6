//! The status of a job.

use vstd::prelude::*;

use crate::jobs::JobIdentifier;
use crate::jobs::feedback::{job_path, write_job_path};
use crate::request::{
    lemma_query_if_values, lemma_query_opt_values, opt_values, opt_view, request_to, url_of,
    values_named, Method, Request, RequestView,
};

verus! {

/// A request for the status of a job.
#[derive(Clone, Debug)]
pub struct JobStatusBuilder {
    pub base_url: String,
    pub subsystem: Option<String>,
    pub identifier: JobIdentifier,
    pub exec_data: Option<bool>,
    pub step_data: Option<bool>,
    pub user_correlator: Option<String>,
}

impl JobStatusBuilder {
    /// The builder as it is first made.
    pub open spec fn is_new(self, base_url: Seq<char>, identifier: JobIdentifier) -> bool {
        &&& self.base_url@ == base_url
        &&& self.identifier == identifier
        &&& self.subsystem is None
        &&& self.exec_data is None
        &&& self.step_data is None
        &&& self.user_correlator is None
    }

    /// A builder for the status of the job `identifier`.
    pub fn new(base_url: String, identifier: JobIdentifier) -> (r: JobStatusBuilder)
        ensures
            r.is_new(base_url@, identifier),
    {
        JobStatusBuilder {
            base_url,
            subsystem: None,
            identifier,
            exec_data: None,
            step_data: None,
            user_correlator: None,
        }
    }

    /// Names the subsystem of the job.
    pub fn subsystem(self, value: &str) -> (r: JobStatusBuilder)
        ensures
            r.subsystem matches Some(s) && s@ == value@,
            r == (JobStatusBuilder { subsystem: r.subsystem, ..self }),
    {
        JobStatusBuilder { subsystem: Some(String::from_str(value)), ..self }
    }

    /// Names the job by its user correlator.
    pub fn user_correlator(self, value: &str) -> (r: JobStatusBuilder)
        ensures
            r.user_correlator matches Some(s) && s@ == value@,
            r == (JobStatusBuilder { user_correlator: r.user_correlator, ..self }),
    {
        JobStatusBuilder { user_correlator: Some(String::from_str(value)), ..self }
    }

    /// Asks for the execution data of the job.
    pub fn exec_data(self) -> (r: JobStatusBuilder)
        ensures
            r == (JobStatusBuilder { exec_data: Some(true), ..self }),
    {
        JobStatusBuilder { exec_data: Some(true), ..self }
    }

    /// Asks for the step data of the job.
    pub fn step_data(self) -> (r: JobStatusBuilder)
        ensures
            r == (JobStatusBuilder { step_data: Some(true), ..self }),
    {
        JobStatusBuilder { step_data: Some(true), ..self }
    }

    /// The request that this builder describes.
    pub open spec fn spec_request(&self) -> RequestView {
        request_to(
            Method::Get,
            url_of(self.base_url@, job_path(opt_view(self.subsystem), self.identifier@)),
        )
            .with_query_if(self.exec_data == Some(true), "exec-data"@, "Y"@)
            .with_query_if(self.step_data == Some(true), "step-data"@, "Y"@)
            .with_query_opt("user-correlator"@, opt_view(self.user_correlator))
    }

    /// The request: `GET` on the job.
    pub fn get_request(&self) -> (r: Request)
        ensures
            r@ == self.spec_request(),
    {
        let path = write_job_path(&self.subsystem, &self.identifier);
        let mut r = Request::new(Method::Get, self.base_url.as_str(), &path);
        r.add_query_if(self.exec_data == Some(true), "exec-data", "Y");
        r.add_query_if(self.step_data == Some(true), "step-data", "Y");
        r.add_query_opt("user-correlator", &self.user_correlator);
        r
    }
}

/// The status request asks for step data, with the value `Y`, exactly when
/// step data was chosen, and likewise for exec data; the user correlator,
/// when one is set, is the one `user-correlator` parameter.
pub proof fn status_query_filters(b: JobStatusBuilder)
    ensures
        values_named(b.spec_request().query, "step-data"@) == (if b.step_data == Some(true) {
            seq!["Y"@]
        } else {
            Seq::<Seq<char>>::empty()
        }),
        values_named(b.spec_request().query, "exec-data"@) == (if b.exec_data == Some(true) {
            seq!["Y"@]
        } else {
            Seq::<Seq<char>>::empty()
        }),
        values_named(b.spec_request().query, "user-correlator"@) == opt_values(
            opt_view(b.user_correlator),
        ),
{
    reveal_strlit("step-data");
    reveal_strlit("exec-data");
    reveal_strlit("user-correlator");
    assert("exec-data"@[0] != "step-data"@[0]);
    assert("exec-data"@[0] != "user-correlator"@[0]);
    assert("step-data"@[0] != "user-correlator"@[0]);
    let r0 = request_to(
        Method::Get,
        url_of(b.base_url@, job_path(opt_view(b.subsystem), b.identifier@)),
    );
    let r1 = r0.with_query_if(b.exec_data == Some(true), "exec-data"@, "Y"@);
    let r2 = r1.with_query_if(b.step_data == Some(true), "step-data"@, "Y"@);
    let names = seq!["step-data"@, "exec-data"@, "user-correlator"@];
    assert forall|k: int| 0 <= k < 3 implies values_named(r0.query, #[trigger] names[k]).len()
        == 0 by {}
    lemma_query_if_values(r0, b.exec_data == Some(true), "exec-data"@, "Y"@, names[0]);
    lemma_query_if_values(r0, b.exec_data == Some(true), "exec-data"@, "Y"@, names[1]);
    lemma_query_if_values(r0, b.exec_data == Some(true), "exec-data"@, "Y"@, names[2]);
    lemma_query_if_values(r1, b.step_data == Some(true), "step-data"@, "Y"@, names[0]);
    lemma_query_if_values(r1, b.step_data == Some(true), "step-data"@, "Y"@, names[1]);
    lemma_query_if_values(r1, b.step_data == Some(true), "step-data"@, "Y"@, names[2]);
    lemma_query_opt_values(r2, "user-correlator"@, opt_view(b.user_correlator), names[0]);
    lemma_query_opt_values(r2, "user-correlator"@, opt_view(b.user_correlator), names[1]);
    lemma_query_opt_values(r2, "user-correlator"@, opt_view(b.user_correlator), names[2]);
    assert(Seq::<Seq<char>>::empty().push("Y"@) =~= seq!["Y"@]);
    assert(Seq::<Seq<char>>::empty() + opt_values(opt_view(b.user_correlator)) =~= opt_values(
        opt_view(b.user_correlator),
    ));
}

} // verus!
