//! The files of a job, as an older form of the listing gives them.

use vstd::prelude::*;

use crate::jobs::{job_identifier_text, JobIdentifier};
use crate::request::{request_to, url_of, Method, Request, RequestView};
use crate::text::{chars_of, extend_str};

pub use super::files::JobFile;

verus! {

/// The files of a job's output.
#[derive(Clone, Debug, PartialEq, Eq, Hash)]
pub struct ListJobFiles {
    pub items: Vec<JobFile>,
}

impl ListJobFiles {
    /// The files, in the order of the answer.
    pub fn items(&self) -> (r: &Vec<JobFile>)
        ensures
            r == &self.items,
    {
        &self.items
    }
}

/// The path of a job's files, with the subsystem, when it is named, written
/// as `-name/` before the job.
pub open spec fn list_files_path(
    subsystem: Option<Seq<char>>,
    identifier: crate::jobs::JobIdentifierView,
) -> Seq<
    char,
> {
    "/zosmf/restjobs/jobs/"@ + match subsystem {
        Some(s) => seq!['-'] + s + seq!['/'],
        None => Seq::empty(),
    } + job_identifier_text(identifier) + "/files"@
}

/// A request that lists the files of a job's output.
#[derive(Clone, Debug)]
pub struct ListJobFilesBuilder {
    pub base_url: String,
    pub subsystem: Option<String>,
    pub identifier: JobIdentifier,
}

impl ListJobFilesBuilder {
    /// A builder that lists the files of the job `identifier`.
    pub fn new(base_url: String, identifier: JobIdentifier) -> (r: ListJobFilesBuilder)
        ensures
            r.base_url == base_url,
            r.subsystem is None,
            r.identifier == identifier,
    {
        ListJobFilesBuilder { base_url, subsystem: None, identifier }
    }

    /// Names the subsystem of the job.
    pub fn subsystem(self, value: &str) -> (r: ListJobFilesBuilder)
        ensures
            r.subsystem matches Some(s) && s@ == value@,
            r.base_url == self.base_url,
            r.identifier == self.identifier,
    {
        ListJobFilesBuilder { subsystem: Some(String::from_str(value)), ..self }
    }

    /// The request that this builder describes.
    pub open spec fn spec_request(&self) -> RequestView {
        request_to(
            Method::Get,
            url_of(
                self.base_url@,
                list_files_path(crate::request::opt_view(self.subsystem), self.identifier@),
            ),
        )
    }

    /// The request: `GET` on the job's files.
    pub fn get_request(&self) -> (r: Request)
        ensures
            r@ == self.spec_request(),
    {
        let mut path = chars_of("/zosmf/restjobs/jobs/");
        match &self.subsystem {
            Some(s) => {
                path.push('-');
                extend_str(&mut path, s.as_str());
                path.push('/');
            },
            None => {},
        }
        self.identifier.write_to(&mut path);
        extend_str(&mut path, "/files");
        proof {
            assert(path@ =~= list_files_path(crate::request::opt_view(self.subsystem), self.identifier@));
        }
        Request::new(Method::Get, self.base_url.as_str(), &path)
    }
}

} // verus!
