//! The descriptions of jobs that z/OSMF gives, as the core of the client
//! reads them.

use vstd::prelude::*;

use crate::request::{opt_str_view, opt_view};
use crate::text::{extend_str, string_of};

verus! {

/// The attributes of a job.
#[derive(Clone, Debug, PartialEq, Eq, Hash)]
pub struct JobData {
    pub id: String,
    pub name: String,
    pub subsystem: Option<String>,
    pub owner: String,
    pub status: Option<Status>,
    pub job_type: Option<JobType>,
    pub class: String,
    pub return_code: Option<String>,
    pub url: String,
    pub files_url: String,
    pub job_correlator: Option<String>,
    pub phase: i32,
    pub phase_name: String,
    pub reason_not_running: Option<String>,
}

impl JobData {
    /// The job id.
    pub fn id(&self) -> (r: &str)
        ensures
            r@ == self.id@,
    {
        self.id.as_str()
    }

    /// The job name.
    pub fn name(&self) -> (r: &str)
        ensures
            r@ == self.name@,
    {
        self.name.as_str()
    }

    /// The subsystem.
    pub fn subsystem(&self) -> (r: Option<&str>)
        ensures
            opt_str_view(r) == opt_view(self.subsystem),
    {
        match &self.subsystem {
            Some(s) => Some(s.as_str()),
            None => None,
        }
    }

    /// The owner.
    pub fn owner(&self) -> (r: &str)
        ensures
            r@ == self.owner@,
    {
        self.owner.as_str()
    }

    /// The status.
    pub fn status(&self) -> (r: Option<Status>)
        ensures
            r == self.status,
    {
        self.status
    }

    /// The type of the job.
    pub fn job_type(&self) -> (r: Option<JobType>)
        ensures
            r == self.job_type,
    {
        self.job_type
    }

    /// The class.
    pub fn class(&self) -> (r: &str)
        ensures
            r@ == self.class@,
    {
        self.class.as_str()
    }

    /// The return code.
    pub fn return_code(&self) -> (r: Option<&str>)
        ensures
            opt_str_view(r) == opt_view(self.return_code),
    {
        match &self.return_code {
            Some(s) => Some(s.as_str()),
            None => None,
        }
    }

    /// The url.
    pub fn url(&self) -> (r: &str)
        ensures
            r@ == self.url@,
    {
        self.url.as_str()
    }

    /// The URL of the job's files.
    pub fn files_url(&self) -> (r: &str)
        ensures
            r@ == self.files_url@,
    {
        self.files_url.as_str()
    }

    /// The job correlator.
    pub fn job_correlator(&self) -> (r: Option<&str>)
        ensures
            opt_str_view(r) == opt_view(self.job_correlator),
    {
        match &self.job_correlator {
            Some(s) => Some(s.as_str()),
            None => None,
        }
    }

    /// The phase.
    pub fn phase(&self) -> (r: i32)
        ensures
            r == self.phase,
    {
        self.phase
    }

    /// The phase name.
    pub fn phase_name(&self) -> (r: &str)
        ensures
            r@ == self.phase_name@,
    {
        self.phase_name.as_str()
    }

    /// The reason not running.
    pub fn reason_not_running(&self) -> (r: Option<&str>)
        ensures
            opt_str_view(r) == opt_view(self.reason_not_running),
    {
        match &self.reason_not_running {
            Some(s) => Some(s.as_str()),
            None => None,
        }
    }
}
impl JobData {
    /// The job's identifier: its name and id.
    pub fn identifier(&self) -> (r: Identifier)
        ensures
            r@ == IdentifierView::NameId(self.name@, self.id@),
    {
        Identifier::NameId(self.name.clone(), self.id.clone())
    }
}
/// The attributes of a job with the data of its execution.
#[derive(Clone, Debug, PartialEq, Eq, Hash)]
pub struct JobExecData {
    pub id: String,
    pub name: String,
    pub subsystem: Option<String>,
    pub owner: String,
    pub status: Option<Status>,
    pub job_type: Option<JobType>,
    pub class: String,
    pub return_code: Option<String>,
    pub url: String,
    pub files_url: String,
    pub job_correlator: Option<String>,
    pub phase: i32,
    pub phase_name: String,
    pub exec_system: String,
    pub exec_member: String,
    pub exec_submitted: String,
    pub exec_ended: String,
    pub reason_not_running: Option<String>,
}

impl JobExecData {
    /// The job id.
    pub fn id(&self) -> (r: &str)
        ensures
            r@ == self.id@,
    {
        self.id.as_str()
    }

    /// The job name.
    pub fn name(&self) -> (r: &str)
        ensures
            r@ == self.name@,
    {
        self.name.as_str()
    }

    /// The subsystem.
    pub fn subsystem(&self) -> (r: Option<&str>)
        ensures
            opt_str_view(r) == opt_view(self.subsystem),
    {
        match &self.subsystem {
            Some(s) => Some(s.as_str()),
            None => None,
        }
    }

    /// The owner.
    pub fn owner(&self) -> (r: &str)
        ensures
            r@ == self.owner@,
    {
        self.owner.as_str()
    }

    /// The status.
    pub fn status(&self) -> (r: Option<Status>)
        ensures
            r == self.status,
    {
        self.status
    }

    /// The type of the job.
    pub fn job_type(&self) -> (r: Option<JobType>)
        ensures
            r == self.job_type,
    {
        self.job_type
    }

    /// The class.
    pub fn class(&self) -> (r: &str)
        ensures
            r@ == self.class@,
    {
        self.class.as_str()
    }

    /// The return code.
    pub fn return_code(&self) -> (r: Option<&str>)
        ensures
            opt_str_view(r) == opt_view(self.return_code),
    {
        match &self.return_code {
            Some(s) => Some(s.as_str()),
            None => None,
        }
    }

    /// The url.
    pub fn url(&self) -> (r: &str)
        ensures
            r@ == self.url@,
    {
        self.url.as_str()
    }

    /// The URL of the job's files.
    pub fn files_url(&self) -> (r: &str)
        ensures
            r@ == self.files_url@,
    {
        self.files_url.as_str()
    }

    /// The job correlator.
    pub fn job_correlator(&self) -> (r: Option<&str>)
        ensures
            opt_str_view(r) == opt_view(self.job_correlator),
    {
        match &self.job_correlator {
            Some(s) => Some(s.as_str()),
            None => None,
        }
    }

    /// The phase.
    pub fn phase(&self) -> (r: i32)
        ensures
            r == self.phase,
    {
        self.phase
    }

    /// The phase name.
    pub fn phase_name(&self) -> (r: &str)
        ensures
            r@ == self.phase_name@,
    {
        self.phase_name.as_str()
    }

    /// The system that ran the job.
    pub fn exec_system(&self) -> (r: &str)
        ensures
            r@ == self.exec_system@,
    {
        self.exec_system.as_str()
    }

    /// The member that ran the job.
    pub fn exec_member(&self) -> (r: &str)
        ensures
            r@ == self.exec_member@,
    {
        self.exec_member.as_str()
    }

    /// When the job was submitted.
    pub fn exec_submitted(&self) -> (r: &str)
        ensures
            r@ == self.exec_submitted@,
    {
        self.exec_submitted.as_str()
    }

    /// When the job ended.
    pub fn exec_ended(&self) -> (r: &str)
        ensures
            r@ == self.exec_ended@,
    {
        self.exec_ended.as_str()
    }

    /// The reason not running.
    pub fn reason_not_running(&self) -> (r: Option<&str>)
        ensures
            opt_str_view(r) == opt_view(self.reason_not_running),
    {
        match &self.reason_not_running {
            Some(s) => Some(s.as_str()),
            None => None,
        }
    }
}
impl JobExecData {
    /// The job's identifier: its name and id.
    pub fn identifier(&self) -> (r: Identifier)
        ensures
            r@ == IdentifierView::NameId(self.name@, self.id@),
    {
        Identifier::NameId(self.name.clone(), self.id.clone())
    }
}
/// The attributes of a job with the data of its execution and of its steps.
#[derive(Clone, Debug, PartialEq, Eq, Hash)]
pub struct JobExecStepData {
    pub id: String,
    pub name: String,
    pub subsystem: Option<String>,
    pub owner: String,
    pub status: Option<Status>,
    pub job_type: Option<JobType>,
    pub class: String,
    pub return_code: Option<String>,
    pub url: String,
    pub files_url: String,
    pub job_correlator: Option<String>,
    pub phase: i32,
    pub phase_name: String,
    pub step_data: Vec<StepData>,
    pub exec_system: String,
    pub exec_member: String,
    pub exec_submitted: String,
    pub exec_ended: String,
    pub reason_not_running: Option<String>,
}

impl JobExecStepData {
    /// The job id.
    pub fn id(&self) -> (r: &str)
        ensures
            r@ == self.id@,
    {
        self.id.as_str()
    }

    /// The job name.
    pub fn name(&self) -> (r: &str)
        ensures
            r@ == self.name@,
    {
        self.name.as_str()
    }

    /// The subsystem.
    pub fn subsystem(&self) -> (r: Option<&str>)
        ensures
            opt_str_view(r) == opt_view(self.subsystem),
    {
        match &self.subsystem {
            Some(s) => Some(s.as_str()),
            None => None,
        }
    }

    /// The owner.
    pub fn owner(&self) -> (r: &str)
        ensures
            r@ == self.owner@,
    {
        self.owner.as_str()
    }

    /// The status.
    pub fn status(&self) -> (r: Option<Status>)
        ensures
            r == self.status,
    {
        self.status
    }

    /// The type of the job.
    pub fn job_type(&self) -> (r: Option<JobType>)
        ensures
            r == self.job_type,
    {
        self.job_type
    }

    /// The class.
    pub fn class(&self) -> (r: &str)
        ensures
            r@ == self.class@,
    {
        self.class.as_str()
    }

    /// The return code.
    pub fn return_code(&self) -> (r: Option<&str>)
        ensures
            opt_str_view(r) == opt_view(self.return_code),
    {
        match &self.return_code {
            Some(s) => Some(s.as_str()),
            None => None,
        }
    }

    /// The url.
    pub fn url(&self) -> (r: &str)
        ensures
            r@ == self.url@,
    {
        self.url.as_str()
    }

    /// The URL of the job's files.
    pub fn files_url(&self) -> (r: &str)
        ensures
            r@ == self.files_url@,
    {
        self.files_url.as_str()
    }

    /// The job correlator.
    pub fn job_correlator(&self) -> (r: Option<&str>)
        ensures
            opt_str_view(r) == opt_view(self.job_correlator),
    {
        match &self.job_correlator {
            Some(s) => Some(s.as_str()),
            None => None,
        }
    }

    /// The phase.
    pub fn phase(&self) -> (r: i32)
        ensures
            r == self.phase,
    {
        self.phase
    }

    /// The phase name.
    pub fn phase_name(&self) -> (r: &str)
        ensures
            r@ == self.phase_name@,
    {
        self.phase_name.as_str()
    }

    /// The data of the job's steps.
    pub fn step_data(&self) -> (r: &Vec<StepData>)
        ensures
            r == &self.step_data,
    {
        &self.step_data
    }

    /// The system that ran the job.
    pub fn exec_system(&self) -> (r: &str)
        ensures
            r@ == self.exec_system@,
    {
        self.exec_system.as_str()
    }

    /// The member that ran the job.
    pub fn exec_member(&self) -> (r: &str)
        ensures
            r@ == self.exec_member@,
    {
        self.exec_member.as_str()
    }

    /// When the job was submitted.
    pub fn exec_submitted(&self) -> (r: &str)
        ensures
            r@ == self.exec_submitted@,
    {
        self.exec_submitted.as_str()
    }

    /// When the job ended.
    pub fn exec_ended(&self) -> (r: &str)
        ensures
            r@ == self.exec_ended@,
    {
        self.exec_ended.as_str()
    }

    /// The reason not running.
    pub fn reason_not_running(&self) -> (r: Option<&str>)
        ensures
            opt_str_view(r) == opt_view(self.reason_not_running),
    {
        match &self.reason_not_running {
            Some(s) => Some(s.as_str()),
            None => None,
        }
    }
}
impl JobExecStepData {
    /// The job's identifier: its name and id.
    pub fn identifier(&self) -> (r: Identifier)
        ensures
            r@ == IdentifierView::NameId(self.name@, self.id@),
    {
        Identifier::NameId(self.name.clone(), self.id.clone())
    }
}
/// The attributes of a job with the data of its steps.
#[derive(Clone, Debug, PartialEq, Eq, Hash)]
pub struct JobStepData {
    pub id: String,
    pub name: String,
    pub subsystem: Option<String>,
    pub owner: String,
    pub status: Option<Status>,
    pub job_type: Option<JobType>,
    pub class: String,
    pub return_code: Option<String>,
    pub url: String,
    pub files_url: String,
    pub job_correlator: Option<String>,
    pub phase: i32,
    pub phase_name: String,
    pub step_data: Vec<StepData>,
    pub reason_not_running: Option<String>,
}

impl JobStepData {
    /// The job id.
    pub fn id(&self) -> (r: &str)
        ensures
            r@ == self.id@,
    {
        self.id.as_str()
    }

    /// The job name.
    pub fn name(&self) -> (r: &str)
        ensures
            r@ == self.name@,
    {
        self.name.as_str()
    }

    /// The subsystem.
    pub fn subsystem(&self) -> (r: Option<&str>)
        ensures
            opt_str_view(r) == opt_view(self.subsystem),
    {
        match &self.subsystem {
            Some(s) => Some(s.as_str()),
            None => None,
        }
    }

    /// The owner.
    pub fn owner(&self) -> (r: &str)
        ensures
            r@ == self.owner@,
    {
        self.owner.as_str()
    }

    /// The status.
    pub fn status(&self) -> (r: Option<Status>)
        ensures
            r == self.status,
    {
        self.status
    }

    /// The type of the job.
    pub fn job_type(&self) -> (r: Option<JobType>)
        ensures
            r == self.job_type,
    {
        self.job_type
    }

    /// The class.
    pub fn class(&self) -> (r: &str)
        ensures
            r@ == self.class@,
    {
        self.class.as_str()
    }

    /// The return code.
    pub fn return_code(&self) -> (r: Option<&str>)
        ensures
            opt_str_view(r) == opt_view(self.return_code),
    {
        match &self.return_code {
            Some(s) => Some(s.as_str()),
            None => None,
        }
    }

    /// The url.
    pub fn url(&self) -> (r: &str)
        ensures
            r@ == self.url@,
    {
        self.url.as_str()
    }

    /// The URL of the job's files.
    pub fn files_url(&self) -> (r: &str)
        ensures
            r@ == self.files_url@,
    {
        self.files_url.as_str()
    }

    /// The job correlator.
    pub fn job_correlator(&self) -> (r: Option<&str>)
        ensures
            opt_str_view(r) == opt_view(self.job_correlator),
    {
        match &self.job_correlator {
            Some(s) => Some(s.as_str()),
            None => None,
        }
    }

    /// The phase.
    pub fn phase(&self) -> (r: i32)
        ensures
            r == self.phase,
    {
        self.phase
    }

    /// The phase name.
    pub fn phase_name(&self) -> (r: &str)
        ensures
            r@ == self.phase_name@,
    {
        self.phase_name.as_str()
    }

    /// The data of the job's steps.
    pub fn step_data(&self) -> (r: &Vec<StepData>)
        ensures
            r == &self.step_data,
    {
        &self.step_data
    }

    /// The reason not running.
    pub fn reason_not_running(&self) -> (r: Option<&str>)
        ensures
            opt_str_view(r) == opt_view(self.reason_not_running),
    {
        match &self.reason_not_running {
            Some(s) => Some(s.as_str()),
            None => None,
        }
    }
}
impl JobStepData {
    /// The job's identifier: its name and id.
    pub fn identifier(&self) -> (r: Identifier)
        ensures
            r@ == IdentifierView::NameId(self.name@, self.id@),
    {
        Identifier::NameId(self.name.clone(), self.id.clone())
    }
}
/// A job, named by its name and id or by its correlator.
#[derive(Clone, Debug, PartialEq, Eq, Hash)]
pub enum Identifier {
    NameId(String, String),
    Correlator(String),
}

/// The mathematical value of an [`Identifier`].
pub enum IdentifierView {
    NameId(Seq<char>, Seq<char>),
    Correlator(Seq<char>),
}

impl View for Identifier {
    type V = IdentifierView;

    open spec fn view(&self) -> IdentifierView {
        match self {
            Identifier::NameId(n, i) => IdentifierView::NameId(n@, i@),
            Identifier::Correlator(c) => IdentifierView::Correlator(c@),
        }
    }
}

/// The text of an identifier: its parts joined by `/`.
pub open spec fn identifier_text(id: IdentifierView) -> Seq<char> {
    match id {
        IdentifierView::NameId(n, i) => n + seq!['/'] + i,
        IdentifierView::Correlator(c) => c,
    }
}

impl Identifier {
    /// The text of this identifier, as its `Display` writes it.
    pub fn to_string(&self) -> (r: String)
        ensures
            r@ == identifier_text(self@),
    {
        let mut v: Vec<char> = Vec::new();
        match self {
            Identifier::NameId(n, i) => {
                extend_str(&mut v, n.as_str());
                v.push('/');
                extend_str(&mut v, i.as_str());
            },
            Identifier::Correlator(c) => extend_str(&mut v, c.as_str()),
        }
        proof {
            assert(v@ =~= identifier_text(self@));
        }
        string_of(&v)
    }
}

/// The type of a job.
#[derive(Clone, Copy, Debug, PartialEq, Eq, Structural, Hash)]
pub enum JobType {
    Job,
    StartedTask,
    TsoUser,
}

impl JobType {
    /// The name of this value in requests and answers.
    pub open spec fn text(self) -> Seq<char> {
        match self {
            JobType::Job => "JOB"@,
            JobType::StartedTask => "STC"@,
            JobType::TsoUser => "TSU"@,
        }
    }

    /// The name of this value in requests and answers.
    pub fn as_str(&self) -> (r: &'static str)
        ensures
            r@ == self.text(),
    {
        match self {
            JobType::Job => "JOB",
            JobType::StartedTask => "STC",
            JobType::TsoUser => "TSU",
        }
    }
}

/// The state of a job.
#[derive(Clone, Copy, Debug, PartialEq, Eq, Structural, Hash)]
pub enum Status {
    Active,
    Input,
    Output,
}

impl Status {
    /// The name of this value in requests and answers.
    pub open spec fn text(self) -> Seq<char> {
        match self {
            Status::Active => "ACTIVE"@,
            Status::Input => "INPUT"@,
            Status::Output => "OUTPUT"@,
        }
    }

    /// The name of this value in requests and answers.
    pub fn as_str(&self) -> (r: &'static str)
        ensures
            r@ == self.text(),
    {
        match self {
            Status::Active => "ACTIVE",
            Status::Input => "INPUT",
            Status::Output => "OUTPUT",
        }
    }
}

/// The data of one step of a job.
#[derive(Clone, Debug, PartialEq, Eq, Hash)]
pub struct StepData {
    pub active: bool,
    pub smf_id: String,
    pub step_number: i32,
    pub selected_time: Option<String>,
    pub owner: String,
    pub program_name: String,
    pub step_name: String,
    pub path_name: Option<String>,
    pub substep_number: Option<i32>,
    pub end_time: Option<String>,
    pub proc_step_name: String,
    pub completion_code: Option<String>,
    pub abend_reason_code: Option<String>,
}

impl StepData {
    /// Whether the step is running.
    pub fn active(&self) -> (r: bool)
        ensures
            r == self.active,
    {
        self.active
    }

    /// The SMF id of the system that ran the step.
    pub fn smf_id(&self) -> (r: &str)
        ensures
            r@ == self.smf_id@,
    {
        self.smf_id.as_str()
    }

    /// The step number.
    pub fn step_number(&self) -> (r: i32)
        ensures
            r == self.step_number,
    {
        self.step_number
    }

    /// The selected time.
    pub fn selected_time(&self) -> (r: Option<&str>)
        ensures
            opt_str_view(r) == opt_view(self.selected_time),
    {
        match &self.selected_time {
            Some(s) => Some(s.as_str()),
            None => None,
        }
    }

    /// The owner.
    pub fn owner(&self) -> (r: &str)
        ensures
            r@ == self.owner@,
    {
        self.owner.as_str()
    }

    /// The program name.
    pub fn program_name(&self) -> (r: &str)
        ensures
            r@ == self.program_name@,
    {
        self.program_name.as_str()
    }

    /// The step name.
    pub fn step_name(&self) -> (r: &str)
        ensures
            r@ == self.step_name@,
    {
        self.step_name.as_str()
    }

    /// The path name.
    pub fn path_name(&self) -> (r: Option<&str>)
        ensures
            opt_str_view(r) == opt_view(self.path_name),
    {
        match &self.path_name {
            Some(s) => Some(s.as_str()),
            None => None,
        }
    }

    /// The substep number.
    pub fn substep_number(&self) -> (r: Option<i32>)
        ensures
            r == self.substep_number,
    {
        self.substep_number
    }

    /// The end time.
    pub fn end_time(&self) -> (r: Option<&str>)
        ensures
            opt_str_view(r) == opt_view(self.end_time),
    {
        match &self.end_time {
            Some(s) => Some(s.as_str()),
            None => None,
        }
    }

    /// The name of the procedure step.
    pub fn proc_step_name(&self) -> (r: &str)
        ensures
            r@ == self.proc_step_name@,
    {
        self.proc_step_name.as_str()
    }

    /// The completion code.
    pub fn completion_code(&self) -> (r: Option<&str>)
        ensures
            opt_str_view(r) == opt_view(self.completion_code),
    {
        match &self.completion_code {
            Some(s) => Some(s.as_str()),
            None => None,
        }
    }

    /// The abend reason code.
    pub fn abend_reason_code(&self) -> (r: Option<&str>)
        ensures
            opt_str_view(r) == opt_view(self.abend_reason_code),
    {
        match &self.abend_reason_code {
            Some(s) => Some(s.as_str()),
            None => None,
        }
    }
}

} // verus!
