//! The spool files of a job.

pub mod read;

use vstd::prelude::*;

use crate::jobs::JobIdentifier;
use crate::jobs::feedback::{job_path, write_job_path};
use crate::request::{opt_str_view, opt_view, request_to, url_of, Method, Request, RequestView};
use crate::text::extend_str;

verus! {

/// A request that lists the spool files of a job.
#[derive(Clone, Debug)]
pub struct JobFileListBuilder {
    pub base_url: String,
    pub subsystem: Option<String>,
    pub identifier: JobIdentifier,
}

impl JobFileListBuilder {
    /// The builder as it is first made.
    pub open spec fn is_new(self, base_url: Seq<char>, identifier: JobIdentifier) -> bool {
        &&& self.base_url@ == base_url
        &&& self.identifier == identifier
        &&& self.subsystem is None
    }

    /// A builder for the spool files of the job `identifier`.
    pub fn new(base_url: String, identifier: JobIdentifier) -> (r: JobFileListBuilder)
        ensures
            r.is_new(base_url@, identifier),
    {
        JobFileListBuilder { base_url, subsystem: None, identifier }
    }

    /// Names the subsystem of the job.
    pub fn subsystem(self, value: &str) -> (r: JobFileListBuilder)
        ensures
            r.subsystem matches Some(s) && s@ == value@,
            r == (JobFileListBuilder { subsystem: r.subsystem, ..self }),
    {
        JobFileListBuilder { subsystem: Some(String::from_str(value)), ..self }
    }

    /// The request that this builder describes.
    pub open spec fn spec_request(&self) -> RequestView {
        request_to(
            Method::Get,
            url_of(
                self.base_url@,
                job_path(opt_view(self.subsystem), self.identifier@) + "/files"@,
            ),
        )
    }

    /// The request: `GET` on the files of the job.
    pub fn get_request(&self) -> (r: Request)
        ensures
            r@ == self.spec_request(),
    {
        let mut path = write_job_path(&self.subsystem, &self.identifier);
        extend_str(&mut path, "/files");
        Request::new(Method::Get, self.base_url.as_str(), &path)
    }
}

/// One file of a job's output.
#[derive(Clone, Debug, PartialEq, Eq, Hash)]
pub struct JobFile {
    pub job_name: String,
    pub record_format: String,
    pub byte_count: i32,
    pub record_count: i32,
    pub job_correlator: Option<String>,
    pub class: String,
    pub job_id: String,
    pub id: i32,
    pub dd_name: String,
    pub records_url: String,
    pub record_length: i32,
    pub subsystem: String,
    pub step_name: Option<String>,
    pub proc_step: Option<String>,
}

impl JobFile {
    /// The job name.
    pub fn job_name(&self) -> (r: &str)
        ensures
            r@ == self.job_name@,
    {
        self.job_name.as_str()
    }

    /// The record format.
    pub fn record_format(&self) -> (r: &str)
        ensures
            r@ == self.record_format@,
    {
        self.record_format.as_str()
    }

    /// The byte count.
    pub fn byte_count(&self) -> (r: i32)
        ensures
            r == self.byte_count,
    {
        self.byte_count
    }

    /// The record count.
    pub fn record_count(&self) -> (r: i32)
        ensures
            r == self.record_count,
    {
        self.record_count
    }

    /// The job correlator.
    pub fn job_correlator(&self) -> (r: Option<&str>)
        ensures
            opt_str_view(r) == opt_view(self.job_correlator),
    {
        match &self.job_correlator {
            Some(s) => Some(s.as_str()),
            None => None,
        }
    }

    /// The class.
    pub fn class(&self) -> (r: &str)
        ensures
            r@ == self.class@,
    {
        self.class.as_str()
    }

    /// The job id.
    pub fn job_id(&self) -> (r: &str)
        ensures
            r@ == self.job_id@,
    {
        self.job_id.as_str()
    }

    /// The number of the file.
    pub fn id(&self) -> (r: i32)
        ensures
            r == self.id,
    {
        self.id
    }

    /// The DD name of the file.
    pub fn dd_name(&self) -> (r: &str)
        ensures
            r@ == self.dd_name@,
    {
        self.dd_name.as_str()
    }

    /// The URL of the file's records.
    pub fn records_url(&self) -> (r: &str)
        ensures
            r@ == self.records_url@,
    {
        self.records_url.as_str()
    }

    /// The record length.
    pub fn record_length(&self) -> (r: i32)
        ensures
            r == self.record_length,
    {
        self.record_length
    }

    /// The subsystem.
    pub fn subsystem(&self) -> (r: &str)
        ensures
            r@ == self.subsystem@,
    {
        self.subsystem.as_str()
    }

    /// The step name.
    pub fn step_name(&self) -> (r: Option<&str>)
        ensures
            opt_str_view(r) == opt_view(self.step_name),
    {
        match &self.step_name {
            Some(s) => Some(s.as_str()),
            None => None,
        }
    }

    /// The procedure step that wrote the file.
    pub fn proc_step(&self) -> (r: Option<&str>)
        ensures
            opt_str_view(r) == opt_view(self.proc_step),
    {
        match &self.proc_step {
            Some(s) => Some(s.as_str()),
            None => None,
        }
    }
}
/// The files of a job's output.
#[derive(Clone, Debug, PartialEq, Eq, Hash)]
pub struct JobFileList {
    pub items: Vec<JobFile>,
}

impl JobFileList {
    /// The files, in the order of the answer.
    pub fn items(&self) -> (r: &Vec<JobFile>)
        ensures
            r == &self.items,
    {
        &self.items
    }
}

} // verus!
