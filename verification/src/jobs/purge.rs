//! Cancelling a job and purging its output.

use vstd::prelude::*;

use crate::jobs::JobIdentifier;
use crate::jobs::feedback::{job_path, modify_version, modify_version_str, write_job_path};
use crate::request::{opt_view, request_to, url_of, Method, Request, RequestView};

verus! {

/// A request that cancels a job and purges its output.
#[derive(Clone, Debug)]
pub struct JobPurgeBuilder {
    pub base_url: String,
    pub subsystem: Option<String>,
    pub identifier: JobIdentifier,
    pub asynchronous: Option<bool>,
}

impl JobPurgeBuilder {
    /// The builder as it is first made.
    pub open spec fn is_new(self, base_url: Seq<char>, identifier: JobIdentifier) -> bool {
        &&& self.base_url@ == base_url
        &&& self.identifier == identifier
        &&& self.subsystem is None
        &&& self.asynchronous is None
    }

    /// A builder that purges the job `identifier`.
    pub fn new(base_url: String, identifier: JobIdentifier) -> (r: JobPurgeBuilder)
        ensures
            r.is_new(base_url@, identifier),
    {
        JobPurgeBuilder { base_url, subsystem: None, identifier, asynchronous: None }
    }

    /// Names the subsystem of the job.
    pub fn subsystem(self, value: &str) -> (r: JobPurgeBuilder)
        ensures
            r.subsystem matches Some(s) && s@ == value@,
            r.base_url == self.base_url,
            r.identifier == self.identifier,
            r.asynchronous == self.asynchronous,
    {
        JobPurgeBuilder { subsystem: Some(String::from_str(value)), ..self }
    }

    /// Asks z/OSMF to answer before the job is purged.
    pub fn asynchronous(self) -> (r: JobPurgeBuilder)
        ensures
            r.asynchronous == Some(true),
            r.base_url == self.base_url,
            r.identifier == self.identifier,
            r.subsystem == self.subsystem,
    {
        JobPurgeBuilder { asynchronous: Some(true), ..self }
    }

    /// The request that this builder describes.
    pub open spec fn spec_request(&self) -> RequestView {
        request_to(
            Method::Delete,
            url_of(self.base_url@, job_path(opt_view(self.subsystem), self.identifier@)),
        ).with_header("X-IBM-Job-Modify-Version"@, modify_version(self.asynchronous))
    }

    /// The request: `DELETE` on the job, with the modify version header.
    pub fn get_request(&self) -> (r: Request)
        ensures
            r@ == self.spec_request(),
    {
        let path = write_job_path(&self.subsystem, &self.identifier);
        let mut r = Request::new(Method::Delete, self.base_url.as_str(), &path);
        r.add_header("X-IBM-Job-Modify-Version", String::from_str(modify_version_str(self.asynchronous)));
        r
    }
}

} // verus!
