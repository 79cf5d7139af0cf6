//! Changing the class of a job.

use vstd::prelude::*;

use crate::jobs::JobIdentifier;
use crate::jobs::feedback::{job_path, modify_version, modify_version_str, write_job_path};
use crate::request::{
    jstr, opt_view, request_to, url_of, Json, JsonValue, Members, Method, Request, RequestView,
};

verus! {

/// A request that moves a job to another class.
#[derive(Clone, Debug)]
pub struct JobChangeClassBuilder {
    pub base_url: String,
    pub subsystem: Option<String>,
    pub identifier: JobIdentifier,
    pub class: char,
    pub asynchronous: Option<bool>,
}

impl JobChangeClassBuilder {
    /// The builder as it is first made.
    pub open spec fn is_new(
        self,
        base_url: Seq<char>,
        identifier: JobIdentifier,
        class: char,
    ) -> bool {
        &&& self.base_url@ == base_url
        &&& self.identifier == identifier
        &&& self.class == class
        &&& self.subsystem is None
        &&& self.asynchronous is None
    }

    /// A builder that moves the job `identifier` to `class`.
    pub fn new(
        base_url: String,
        identifier: JobIdentifier,
        class: char,
    ) -> (r: JobChangeClassBuilder)
        ensures
            r.is_new(base_url@, identifier, class),
    {
        JobChangeClassBuilder { base_url, subsystem: None, identifier, class, asynchronous: None }
    }

    /// Names the subsystem of the job.
    pub fn subsystem(self, value: &str) -> (r: JobChangeClassBuilder)
        ensures
            r.subsystem matches Some(s) && s@ == value@,
            r.base_url == self.base_url,
            r.identifier == self.identifier,
            r.class == self.class,
            r.asynchronous == self.asynchronous,
    {
        JobChangeClassBuilder { subsystem: Some(String::from_str(value)), ..self }
    }

    /// Asks z/OSMF to answer before the change is made.
    pub fn asynchronous(self) -> (r: JobChangeClassBuilder)
        ensures
            r.asynchronous == Some(true),
            r.base_url == self.base_url,
            r.identifier == self.identifier,
            r.class == self.class,
            r.subsystem == self.subsystem,
    {
        JobChangeClassBuilder { asynchronous: Some(true), ..self }
    }

    /// The request that this builder describes.
    pub open spec fn spec_request(&self) -> RequestView {
        request_to(
            Method::Put,
            url_of(self.base_url@, job_path(opt_view(self.subsystem), self.identifier@)),
        ).with_json(
            Json::Object(
                seq![
                    ("class"@, jstr(seq![self.class])),
                    ("version"@, jstr(modify_version(self.asynchronous))),
                ],
            ),
        )
    }

    /// The request: `PUT` on the job with `{"class": ..., "version": ...}`.
    pub fn get_request(&self) -> (r: Request)
        ensures
            r@ == self.spec_request(),
    {
        let path = write_job_path(&self.subsystem, &self.identifier);
        let mut r = Request::new(Method::Put, self.base_url.as_str(), &path);
        let mut m = Members::new();
        let mut cv: Vec<char> = Vec::new();
        cv.push(self.class);
        m.add("class", JsonValue::Str(crate::text::string_of(&cv)));
        m.add_str("version", modify_version_str(self.asynchronous));
        r.set_json(m.into_object());
        proof {
            assert(cv@ =~= seq![self.class]);
            assert(m@ =~= seq![
                ("class"@, jstr(seq![self.class])),
                ("version"@, jstr(modify_version(self.asynchronous))),
            ]);
        }
        r
    }
}

} // verus!
