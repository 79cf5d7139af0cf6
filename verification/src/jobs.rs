//! Jobs: identifying them, and the requests that list, inspect, submit and
//! change them.

pub mod class;
pub mod feedback;
pub mod files;
pub mod list_files;
pub mod list;
pub mod purge;
pub mod status;
pub mod submit;
pub mod utils;

use vstd::prelude::*;

use crate::error::{Error, ErrorView};
use crate::request::{opt_str_view, opt_view};
use crate::text::{chars_of, extend_str, find_char, first_index, string_of, string_of_range};

use self::class::JobChangeClassBuilder;
use self::feedback::JobFeedbackBuilder;
use self::files::read::{JobFileId, JobFileReadBuilder};
use self::files::JobFileListBuilder;
use self::list::JobListBuilder;
use self::purge::JobPurgeBuilder;
use self::status::JobStatusBuilder;
use self::submit::{JobSource, JobSubmitBuilder};

verus! {

/// A job, named by its correlator or by its name and id.
#[derive(Clone, Debug, PartialEq, Eq, Hash)]
pub enum JobIdentifier {
    Correlator(String),
    NameId(String, String),
}

/// The mathematical value of a [`JobIdentifier`].
pub enum JobIdentifierView {
    Correlator(Seq<char>),
    NameId(Seq<char>, Seq<char>),
}

impl View for JobIdentifier {
    type V = JobIdentifierView;

    open spec fn view(&self) -> JobIdentifierView {
        match self {
            JobIdentifier::Correlator(c) => JobIdentifierView::Correlator(c@),
            JobIdentifier::NameId(n, i) => JobIdentifierView::NameId(n@, i@),
        }
    }
}

/// The text of a job identifier: the correlator, or `name/id`.
pub open spec fn job_identifier_text(j: JobIdentifierView) -> Seq<char> {
    match j {
        JobIdentifierView::Correlator(c) => c,
        JobIdentifierView::NameId(n, i) => n + seq!['/'] + i,
    }
}

/// Reading a job identifier: text without `/` is a correlator, text with one
/// `/` is a name and an id, and text with more is refused.
pub open spec fn job_identifier_from_text(s: Seq<char>) -> Result<JobIdentifierView, ErrorView> {
    match first_index(s, '/') {
        None => Ok(JobIdentifierView::Correlator(s)),
        Some(i) => if first_index(s.skip(i + 1), '/') is None {
            Ok(JobIdentifierView::NameId(s.take(i), s.skip(i + 1)))
        } else {
            Err(ErrorView::InvalidValue("invalid job identifier: "@ + s))
        },
    }
}

impl JobIdentifier {
    /// A copy of this identifier.
    pub fn duplicate(&self) -> (r: JobIdentifier)
        ensures
            r == *self,
    {
        match self {
            JobIdentifier::Correlator(c) => JobIdentifier::Correlator(c.clone()),
            JobIdentifier::NameId(n, i) => JobIdentifier::NameId(n.clone(), i.clone()),
        }
    }

    /// The text of this identifier, as its `Display` writes it.
    pub fn to_string(&self) -> (r: String)
        ensures
            r@ == job_identifier_text(self@),
    {
        let mut v: Vec<char> = Vec::new();
        self.write_to(&mut v);
        proof {
            assert(v@ =~= job_identifier_text(self@));
        }
        string_of(&v)
    }

    /// Appends the text of this identifier to `v`.
    pub fn write_to(&self, v: &mut Vec<char>)
        ensures
            final(v)@ == old(v)@ + job_identifier_text(self@),
    {
        match self {
            JobIdentifier::Correlator(c) => extend_str(v, c.as_str()),
            JobIdentifier::NameId(n, i) => {
                extend_str(v, n.as_str());
                v.push('/');
                extend_str(v, i.as_str());
                proof {
                    assert(final(v)@ =~= old(v)@ + (n@ + seq!['/'] + i@));
                }
            },
        }
    }

    /// Reads a job identifier.
    pub fn from_str(s: &str) -> (r: Result<JobIdentifier, Error>)
        ensures
            match r {
                Ok(j) => job_identifier_from_text(s@) == Ok::<JobIdentifierView, ErrorView>(j@),
                Err(e) => job_identifier_from_text(s@) == Err::<JobIdentifierView, ErrorView>(e@),
            },
    {
        let c = chars_of(s);
        let n = c.len();
        proof {
            assert(c@.subrange(0, n as int) =~= s@);
        }
        match find_char(&c, '/', 0, n) {
            None => Ok(JobIdentifier::Correlator(string_of(&c))),
            Some(i) => {
                proof {
                    assert(c@.subrange(i + 1, n as int) =~= s@.skip(i + 1));
                    assert(c@.subrange(0, i as int) =~= s@.take(i as int));
                }
                match find_char(&c, '/', i + 1, n) {
                    None => Ok(
                        JobIdentifier::NameId(string_of_range(&c, 0, i), string_of_range(&c, i + 1, n)),
                    ),
                    Some(_) => {
                        let mut m = chars_of("invalid job identifier: ");
                        extend_str(&mut m, s);
                        Err(Error::InvalidValue(string_of(&m)))
                    },
                }
            },
        }
    }
}

/// Reading the text of a job identifier gives it back, when its parts hold no
/// `/`.
pub proof fn lemma_job_identifier_round_trip(j: JobIdentifierView)
    requires
        match j {
            JobIdentifierView::Correlator(c) => !c.contains('/'),
            JobIdentifierView::NameId(n, i) => !n.contains('/') && !i.contains('/'),
        },
    ensures
        job_identifier_from_text(job_identifier_text(j)) == Ok::<JobIdentifierView, ErrorView>(j),
{
    let s = job_identifier_text(j);
    s.index_of_first_ensures('/');
    match j {
        JobIdentifierView::Correlator(c) => {
            assert forall|k: int| 0 <= k < s.len() implies s[k] != '/' by {
                if s[k] == '/' {
                    assert(c.contains('/'));
                }
            }
        },
        JobIdentifierView::NameId(n, i) => {
            assert(s[n.len() as int] == '/');
            assert forall|k: int| 0 <= k < n.len() implies s[k] != '/' by {
                assert(s[k] == n[k]);
                if n[k] == '/' {
                    assert(n.contains('/'));
                }
            }
            match s.index_of_first('/') {
                Some(k) => {
                    assert(k == n.len());
                },
                None => {},
            }
            assert(s.take(n.len() as int) =~= n);
            assert(s.skip(n.len() + 1 as int) =~= i);
            i.index_of_first_ensures('/');
        },
    }
}

/// The path part that names a subsystem: `/-name`, or nothing.
pub open spec fn subsystem_text(subsystem: Option<Seq<char>>) -> Seq<char> {
    match subsystem {
        Some(s) => "/-"@ + s,
        None => Seq::empty(),
    }
}

/// The path part that names a subsystem: `/-name`, or nothing.
pub fn get_subsystem(value: &Option<String>) -> (r: String)
    ensures
        r@ == subsystem_text(crate::request::opt_view(*value)),
{
    match value {
        Some(v) => crate::text::concat("/-", v.as_str()),
        None => String::new(),
    }
}

/// Appends the subsystem path part to `v`.
pub fn write_subsystem(v: &mut Vec<char>, value: &Option<String>)
    ensures
        final(v)@ == old(v)@ + subsystem_text(crate::request::opt_view(*value)),
{
    match value {
        Some(s) => {
            extend_str(v, "/-");
            extend_str(v, s.as_str());
            proof {
                assert(final(v)@ =~= old(v)@ + ("/-"@ + s@));
            }
        },
        None => {
            assert(old(v)@ + Seq::<char>::empty() =~= old(v)@);
        },
    }
}

/// The state of a job.
#[derive(Clone, Copy, Debug, PartialEq, Eq, Structural, Hash)]
pub enum JobStatus {
    Active,
    Input,
    Output,
}

/// The kind of a job.
#[derive(Clone, Copy, Debug, PartialEq, Eq, Structural, Hash)]
pub enum JobType {
    Job,
    Stc,
    Tsu,
}

/// The sub-client for jobs.
#[derive(Clone, Debug)]
pub struct JobsClient {
    pub base_url: String,
}

impl JobsClient {
    /// A jobs sub-client for the z/OSMF at `base_url`.
    pub fn new(base_url: String) -> (r: JobsClient)
        ensures
            r.base_url == base_url,
    {
        JobsClient { base_url }
    }

    /// A request to cancel a job.
    pub fn cancel(&self, identifier: JobIdentifier) -> (r: JobFeedbackBuilder)
        ensures
            r.is_new(self.base_url@, identifier, "cancel"@),
    {
        JobFeedbackBuilder::new(self.base_url.clone(), identifier, "cancel")
    }

    /// A request to cancel a job and purge its output.
    pub fn cancel_and_purge(&self, identifier: JobIdentifier) -> (r: JobPurgeBuilder)
        ensures
            r.is_new(self.base_url@, identifier),
    {
        JobPurgeBuilder::new(self.base_url.clone(), identifier)
    }

    /// A request to change the class of a job.
    pub fn change_class(&self, identifier: JobIdentifier, class: char) -> (r: JobChangeClassBuilder)
        ensures
            r.is_new(self.base_url@, identifier, class),
    {
        JobChangeClassBuilder::new(self.base_url.clone(), identifier, class)
    }

    /// A request to hold a job.
    pub fn hold(&self, identifier: JobIdentifier) -> (r: JobFeedbackBuilder)
        ensures
            r.is_new(self.base_url@, identifier, "hold"@),
    {
        JobFeedbackBuilder::new(self.base_url.clone(), identifier, "hold")
    }

    /// A request to list jobs.
    pub fn list(&self) -> (r: JobListBuilder)
        ensures
            r.is_new(self.base_url@),
    {
        JobListBuilder::new(self.base_url.clone())
    }

    /// A request to list the spool files of a job.
    pub fn list_files(&self, identifier: JobIdentifier) -> (r: JobFileListBuilder)
        ensures
            r.is_new(self.base_url@, identifier),
    {
        JobFileListBuilder::new(self.base_url.clone(), identifier)
    }

    /// A request to read a spool file of a job.
    pub fn read_file(&self, identifier: JobIdentifier, file_id: JobFileId) -> (r:
        JobFileReadBuilder)
        ensures
            r.is_new(self.base_url@, identifier, file_id),
    {
        JobFileReadBuilder::new(self.base_url.clone(), identifier, file_id)
    }

    /// A request to release a job.
    pub fn release(&self, identifier: JobIdentifier) -> (r: JobFeedbackBuilder)
        ensures
            r.is_new(self.base_url@, identifier, "release"@),
    {
        JobFeedbackBuilder::new(self.base_url.clone(), identifier, "release")
    }

    /// A request for the status of a job.
    pub fn status(&self, identifier: JobIdentifier) -> (r: JobStatusBuilder)
        ensures
            r.is_new(self.base_url@, identifier),
    {
        JobStatusBuilder::new(self.base_url.clone(), identifier)
    }

    /// A request to submit a job.
    pub fn submit(&self, source: JobSource) -> (r: JobSubmitBuilder)
        ensures
            r.is_new(self.base_url@, source),
    {
        JobSubmitBuilder::new(self.base_url.clone(), source)
    }
}

/// The attributes of a job, as z/OSMF describes it.
#[derive(Clone, Debug, PartialEq, Eq, Hash)]
pub struct JobAttributes {
    pub id: String,
    pub name: String,
    pub subsystem: Option<String>,
    pub owner: String,
    pub status: Option<JobStatus>,
    pub job_type: Option<JobType>,
    pub class: String,
    pub return_code: Option<String>,
    pub url: String,
    pub files_url: String,
    pub job_correlator: Option<String>,
    pub phase: i32,
    pub phase_name: String,
    pub reason_not_running: Option<String>,
}

impl JobAttributes {
    /// The job id.
    pub fn id(&self) -> (r: &str)
        ensures
            r@ == self.id@,
    {
        self.id.as_str()
    }

    /// The job name.
    pub fn name(&self) -> (r: &str)
        ensures
            r@ == self.name@,
    {
        self.name.as_str()
    }

    /// The subsystem.
    pub fn subsystem(&self) -> (r: Option<&str>)
        ensures
            opt_str_view(r) == opt_view(self.subsystem),
    {
        match &self.subsystem {
            Some(s) => Some(s.as_str()),
            None => None,
        }
    }

    /// The owner.
    pub fn owner(&self) -> (r: &str)
        ensures
            r@ == self.owner@,
    {
        self.owner.as_str()
    }

    /// The status.
    pub fn status(&self) -> (r: Option<JobStatus>)
        ensures
            r == self.status,
    {
        self.status
    }

    /// The type of the job.
    pub fn job_type(&self) -> (r: Option<JobType>)
        ensures
            r == self.job_type,
    {
        self.job_type
    }

    /// The class.
    pub fn class(&self) -> (r: &str)
        ensures
            r@ == self.class@,
    {
        self.class.as_str()
    }

    /// The return code.
    pub fn return_code(&self) -> (r: Option<&str>)
        ensures
            opt_str_view(r) == opt_view(self.return_code),
    {
        match &self.return_code {
            Some(s) => Some(s.as_str()),
            None => None,
        }
    }

    /// The url.
    pub fn url(&self) -> (r: &str)
        ensures
            r@ == self.url@,
    {
        self.url.as_str()
    }

    /// The URL of the job's files.
    pub fn files_url(&self) -> (r: &str)
        ensures
            r@ == self.files_url@,
    {
        self.files_url.as_str()
    }

    /// The job correlator.
    pub fn job_correlator(&self) -> (r: Option<&str>)
        ensures
            opt_str_view(r) == opt_view(self.job_correlator),
    {
        match &self.job_correlator {
            Some(s) => Some(s.as_str()),
            None => None,
        }
    }

    /// The phase.
    pub fn phase(&self) -> (r: i32)
        ensures
            r == self.phase,
    {
        self.phase
    }

    /// The phase name.
    pub fn phase_name(&self) -> (r: &str)
        ensures
            r@ == self.phase_name@,
    {
        self.phase_name.as_str()
    }

    /// The reason not running.
    pub fn reason_not_running(&self) -> (r: Option<&str>)
        ensures
            opt_str_view(r) == opt_view(self.reason_not_running),
    {
        match &self.reason_not_running {
            Some(s) => Some(s.as_str()),
            None => None,
        }
    }
}
impl JobAttributes {
    /// The job's identifier: its name and id.
    pub fn identifier(&self) -> (r: JobIdentifier)
        ensures
            r@ == JobIdentifierView::NameId(self.name@, self.id@),
    {
        JobIdentifier::NameId(self.name.clone(), self.id.clone())
    }
}

/// The attributes of a job with the data of its execution.
#[derive(Clone, Debug, PartialEq, Eq, Hash)]
pub struct JobAttributesExec {
    pub job_data: JobAttributes,
    pub exec_system: Option<String>,
    pub exec_member: Option<String>,
    pub exec_submitted: Option<String>,
    pub exec_ended: Option<String>,
}

impl JobAttributesExec {
    /// The attributes of the job.
    pub fn job_data(&self) -> (r: &JobAttributes)
        ensures
            r == &self.job_data,
    {
        &self.job_data
    }

    /// The system that ran the job.
    pub fn exec_system(&self) -> (r: Option<&str>)
        ensures
            opt_str_view(r) == opt_view(self.exec_system),
    {
        match &self.exec_system {
            Some(s) => Some(s.as_str()),
            None => None,
        }
    }

    /// The member that ran the job.
    pub fn exec_member(&self) -> (r: Option<&str>)
        ensures
            opt_str_view(r) == opt_view(self.exec_member),
    {
        match &self.exec_member {
            Some(s) => Some(s.as_str()),
            None => None,
        }
    }

    /// When the job was submitted.
    pub fn exec_submitted(&self) -> (r: Option<&str>)
        ensures
            opt_str_view(r) == opt_view(self.exec_submitted),
    {
        match &self.exec_submitted {
            Some(s) => Some(s.as_str()),
            None => None,
        }
    }

    /// When the job ended.
    pub fn exec_ended(&self) -> (r: Option<&str>)
        ensures
            opt_str_view(r) == opt_view(self.exec_ended),
    {
        match &self.exec_ended {
            Some(s) => Some(s.as_str()),
            None => None,
        }
    }
}
/// The attributes of a job with the data of its execution and of its steps.
#[derive(Clone, Debug, PartialEq, Eq, Hash)]
pub struct JobAttributesExecStep {
    pub job_exec_data: JobAttributesExec,
    pub step_data: Vec<JobStepData>,
}

impl JobAttributesExecStep {
    /// The attributes of the job with the data of its execution.
    pub fn job_exec_data(&self) -> (r: &JobAttributesExec)
        ensures
            r == &self.job_exec_data,
    {
        &self.job_exec_data
    }

    /// The data of the job's steps.
    pub fn step_data(&self) -> (r: &Vec<JobStepData>)
        ensures
            r == &self.step_data,
    {
        &self.step_data
    }
}
/// The attributes of a job with the data of its steps.
#[derive(Clone, Debug, PartialEq, Eq, Hash)]
pub struct JobAttributesStep {
    pub job_data: JobAttributes,
    pub step_data: Vec<JobStepData>,
}

impl JobAttributesStep {
    /// The attributes of the job.
    pub fn job_data(&self) -> (r: &JobAttributes)
        ensures
            r == &self.job_data,
    {
        &self.job_data
    }

    /// The data of the job's steps.
    pub fn step_data(&self) -> (r: &Vec<JobStepData>)
        ensures
            r == &self.step_data,
    {
        &self.step_data
    }
}
/// The data of one step of a job.
#[derive(Clone, Debug, PartialEq, Eq, Hash)]
pub struct JobStepData {
    pub active: bool,
    pub smf_id: Option<String>,
    pub step_number: i32,
    pub selected_time: Option<String>,
    pub owner: Option<String>,
    pub program_name: String,
    pub step_name: String,
    pub path_name: Option<String>,
    pub substep_number: Option<i32>,
    pub end_time: Option<String>,
    pub proc_step_name: String,
    pub completion_code: Option<String>,
    pub abend_reason_code: Option<String>,
}

impl JobStepData {
    /// Whether the step is running.
    pub fn active(&self) -> (r: bool)
        ensures
            r == self.active,
    {
        self.active
    }

    /// The SMF id of the system that ran the step.
    pub fn smf_id(&self) -> (r: Option<&str>)
        ensures
            opt_str_view(r) == opt_view(self.smf_id),
    {
        match &self.smf_id {
            Some(s) => Some(s.as_str()),
            None => None,
        }
    }

    /// The step number.
    pub fn step_number(&self) -> (r: i32)
        ensures
            r == self.step_number,
    {
        self.step_number
    }

    /// The selected time.
    pub fn selected_time(&self) -> (r: Option<&str>)
        ensures
            opt_str_view(r) == opt_view(self.selected_time),
    {
        match &self.selected_time {
            Some(s) => Some(s.as_str()),
            None => None,
        }
    }

    /// The owner.
    pub fn owner(&self) -> (r: Option<&str>)
        ensures
            opt_str_view(r) == opt_view(self.owner),
    {
        match &self.owner {
            Some(s) => Some(s.as_str()),
            None => None,
        }
    }

    /// The program name.
    pub fn program_name(&self) -> (r: &str)
        ensures
            r@ == self.program_name@,
    {
        self.program_name.as_str()
    }

    /// The step name.
    pub fn step_name(&self) -> (r: &str)
        ensures
            r@ == self.step_name@,
    {
        self.step_name.as_str()
    }

    /// The path name.
    pub fn path_name(&self) -> (r: Option<&str>)
        ensures
            opt_str_view(r) == opt_view(self.path_name),
    {
        match &self.path_name {
            Some(s) => Some(s.as_str()),
            None => None,
        }
    }

    /// The substep number.
    pub fn substep_number(&self) -> (r: Option<i32>)
        ensures
            r == self.substep_number,
    {
        self.substep_number
    }

    /// The end time.
    pub fn end_time(&self) -> (r: Option<&str>)
        ensures
            opt_str_view(r) == opt_view(self.end_time),
    {
        match &self.end_time {
            Some(s) => Some(s.as_str()),
            None => None,
        }
    }

    /// The name of the procedure step.
    pub fn proc_step_name(&self) -> (r: &str)
        ensures
            r@ == self.proc_step_name@,
    {
        self.proc_step_name.as_str()
    }

    /// The completion code.
    pub fn completion_code(&self) -> (r: Option<&str>)
        ensures
            opt_str_view(r) == opt_view(self.completion_code),
    {
        match &self.completion_code {
            Some(s) => Some(s.as_str()),
            None => None,
        }
    }

    /// The abend reason code.
    pub fn abend_reason_code(&self) -> (r: Option<&str>)
        ensures
            opt_str_view(r) == opt_view(self.abend_reason_code),
    {
        match &self.abend_reason_code {
            Some(s) => Some(s.as_str()),
            None => None,
        }
    }
}

} // verus!
