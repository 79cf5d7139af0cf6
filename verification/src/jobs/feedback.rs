//! Cancelling, holding and releasing jobs.

use vstd::prelude::*;

use crate::jobs::{
    job_identifier_text, subsystem_text, write_subsystem, JobIdentifier, JobIdentifierView,
};
use crate::request::{
    jstr, opt_str_view, opt_view, request_to, url_of, Json, Members, Method, Request, RequestView,
};
use crate::text::chars_of;

verus! {

/// A request that changes the state of a job (`cancel`, `hold`, `release`).
#[derive(Clone, Debug)]
pub struct JobFeedbackBuilder {
    pub base_url: String,
    pub subsystem: Option<String>,
    pub identifier: JobIdentifier,
    pub request: String,
    pub asynchronous: Option<bool>,
}

/// The version of the job modify interface: `1.0` answers at once, `2.0` waits
/// for the change to be made.
pub open spec fn modify_version(asynchronous: Option<bool>) -> Seq<char> {
    if asynchronous == Some(true) {
        "1.0"@
    } else {
        "2.0"@
    }
}

/// The version of the job modify interface, as text.
pub fn modify_version_str(asynchronous: Option<bool>) -> (r: &'static str)
    ensures
        r@ == modify_version(asynchronous),
{
    if asynchronous == Some(true) {
        "1.0"
    } else {
        "2.0"
    }
}

/// The path of a job: the jobs path, the subsystem part, and the identifier.
pub open spec fn job_path(subsystem: Option<Seq<char>>, identifier: JobIdentifierView) -> Seq<
    char,
> {
    "/zosmf/restjobs/jobs"@ + subsystem_text(subsystem) + seq!['/'] + job_identifier_text(
        identifier,
    )
}

/// Writes the path of a job.
pub fn write_job_path(subsystem: &Option<String>, identifier: &JobIdentifier) -> (r: Vec<char>)
    ensures
        r@ == job_path(opt_view(*subsystem), identifier@),
{
    let mut p = chars_of("/zosmf/restjobs/jobs");
    write_subsystem(&mut p, subsystem);
    p.push('/');
    identifier.write_to(&mut p);
    proof {
        assert(p@ =~= job_path(opt_view(*subsystem), identifier@));
    }
    p
}

impl JobFeedbackBuilder {
    /// The builder as it is first made.
    pub open spec fn is_new(
        self,
        base_url: Seq<char>,
        identifier: JobIdentifier,
        request: Seq<char>,
    ) -> bool {
        &&& self.base_url@ == base_url
        &&& self.identifier == identifier
        &&& self.request@ == request
        &&& self.subsystem is None
        &&& self.asynchronous is None
    }

    /// A builder for the request `request` on the job `identifier`.
    pub fn new(
        base_url: String,
        identifier: JobIdentifier,
        request: &str,
    ) -> (r: JobFeedbackBuilder)
        ensures
            r.is_new(base_url@, identifier, request@),
    {
        JobFeedbackBuilder {
            base_url,
            subsystem: None,
            identifier,
            request: String::from_str(request),
            asynchronous: None,
        }
    }

    /// Names the subsystem of the job.
    pub fn subsystem(self, value: &str) -> (r: JobFeedbackBuilder)
        ensures
            r.subsystem matches Some(s) && s@ == value@,
            r.base_url == self.base_url,
            r.identifier == self.identifier,
            r.request == self.request,
            r.asynchronous == self.asynchronous,
    {
        JobFeedbackBuilder { subsystem: Some(String::from_str(value)), ..self }
    }

    /// Asks z/OSMF to answer before the change is made.
    pub fn asynchronous(self) -> (r: JobFeedbackBuilder)
        ensures
            r.asynchronous == Some(true),
            r.base_url == self.base_url,
            r.identifier == self.identifier,
            r.request == self.request,
            r.subsystem == self.subsystem,
    {
        JobFeedbackBuilder { asynchronous: Some(true), ..self }
    }

    /// The request that this builder describes.
    pub open spec fn spec_request(&self) -> RequestView {
        request_to(
            Method::Put,
            url_of(self.base_url@, job_path(opt_view(self.subsystem), self.identifier@)),
        ).with_json(
            Json::Object(
                seq![
                    ("request"@, jstr(self.request@)),
                    ("version"@, jstr(modify_version(self.asynchronous))),
                ],
            ),
        )
    }

    /// The request: `PUT` on the job with `{"request": ..., "version": ...}`.
    pub fn get_request(&self) -> (r: Request)
        ensures
            r@ == self.spec_request(),
    {
        let path = write_job_path(&self.subsystem, &self.identifier);
        let mut r = Request::new(Method::Put, self.base_url.as_str(), &path);
        let mut m = Members::new();
        m.add_str("request", self.request.as_str());
        m.add_str("version", modify_version_str(self.asynchronous));
        r.set_json(m.into_object());
        proof {
            assert(m@ =~= seq![
                ("request"@, jstr(self.request@)),
                ("version"@, jstr(modify_version(self.asynchronous))),
            ]);
        }
        r
    }
}

/// What z/OSMF answers to a change of a job.
#[derive(Clone, Debug, PartialEq, Eq, Hash)]
pub struct JobFeedback {
    pub id: String,
    pub name: String,
    pub original_id: Option<String>,
    pub owner: String,
    pub member: String,
    pub system_name: String,
    pub job_correlator: String,
    pub status: String,
    pub internal_code: Option<String>,
    pub message: Option<String>,
}

impl JobFeedback {
    /// The job id.
    pub fn id(&self) -> (r: &str)
        ensures
            r@ == self.id@,
    {
        self.id.as_str()
    }

    /// The job name.
    pub fn name(&self) -> (r: &str)
        ensures
            r@ == self.name@,
    {
        self.name.as_str()
    }

    /// The job id before the change.
    pub fn original_id(&self) -> (r: Option<&str>)
        ensures
            opt_str_view(r) == opt_view(self.original_id),
    {
        match &self.original_id {
            Some(s) => Some(s.as_str()),
            None => None,
        }
    }

    /// The owner.
    pub fn owner(&self) -> (r: &str)
        ensures
            r@ == self.owner@,
    {
        self.owner.as_str()
    }

    /// The member.
    pub fn member(&self) -> (r: &str)
        ensures
            r@ == self.member@,
    {
        self.member.as_str()
    }

    /// The system name.
    pub fn system_name(&self) -> (r: &str)
        ensures
            r@ == self.system_name@,
    {
        self.system_name.as_str()
    }

    /// The job correlator.
    pub fn job_correlator(&self) -> (r: &str)
        ensures
            r@ == self.job_correlator@,
    {
        self.job_correlator.as_str()
    }

    /// The status.
    pub fn status(&self) -> (r: &str)
        ensures
            r@ == self.status@,
    {
        self.status.as_str()
    }

    /// The internal code.
    pub fn internal_code(&self) -> (r: Option<&str>)
        ensures
            opt_str_view(r) == opt_view(self.internal_code),
    {
        match &self.internal_code {
            Some(s) => Some(s.as_str()),
            None => None,
        }
    }

    /// The message.
    pub fn message(&self) -> (r: Option<&str>)
        ensures
            opt_str_view(r) == opt_view(self.message),
    {
        match &self.message {
            Some(s) => Some(s.as_str()),
            None => None,
        }
    }
}

} // verus!
