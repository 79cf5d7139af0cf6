//! The bodies of the requests that change a job, on their own.

use vstd::prelude::*;

use crate::request::{jstr, member_opt, Json, JsonValue, Members};

verus! {

/// The answer to a request that z/OSMF carries out after answering.
#[derive(Clone, Copy, Debug, PartialEq, Eq, Hash)]
pub struct AsynchronousResponse;

/// The body of a request that moves a job to another class.
#[derive(Clone, Debug, PartialEq, Eq, Hash)]
pub struct ClassJson {
    pub class: char,
    pub version: Option<String>,
}

/// The body of a request that cancels, holds or releases a job.
#[derive(Clone, Debug, PartialEq, Eq, Hash)]
pub struct RequestJson {
    pub request: String,
    pub version: Option<String>,
}

/// The member `version`, when there is one.
pub open spec fn version_member(version: Option<String>) -> Seq<(Seq<char>, Json)> {
    member_opt(
        "version"@,
        match version {
            Some(v) => Some(jstr(v@)),
            None => None,
        },
    )
}

/// A body that carries the version of the change.
pub trait FeedbackJson {
    /// Sets the version of the change.
    fn set_version(&mut self, value: &str);
}

impl ClassJson {
    /// A body that moves a job to `class`, with no version.
    pub fn new(class: char) -> (r: ClassJson)
        ensures
            r.class == class,
            r.version is None,
    {
        ClassJson { class, version: None }
    }

    /// The JSON of this body: the class, then the version when there is one.
    pub fn to_json(&self) -> (r: JsonValue)
        ensures
            r@ == Json::Object(seq![("class"@, jstr(seq![self.class]))] + version_member(self.version)),
    {
        let mut m = Members::new();
        let mut c: Vec<char> = Vec::new();
        c.push(self.class);
        m.add("class", JsonValue::Str(crate::text::string_of(&c)));
        m.add_opt_str("version", &self.version);
        proof {
            assert(c@ =~= seq![self.class]);
            assert(m@ =~= seq![("class"@, jstr(seq![self.class]))] + version_member(self.version));
        }
        m.into_object()
    }
}

impl FeedbackJson for ClassJson {
    fn set_version(&mut self, value: &str)
        ensures
            final(self).class == old(self).class,
            final(self).version matches Some(v) && v@ == value@,
    {
        self.version = Some(String::from_str(value));
    }
}

impl RequestJson {
    /// A body that asks for `request`, with no version.
    pub fn new(request: &str) -> (r: RequestJson)
        ensures
            r.request@ == request@,
            r.version is None,
    {
        RequestJson { request: String::from_str(request), version: None }
    }

    /// The JSON of this body: the request, then the version when there is
    /// one.
    pub fn to_json(&self) -> (r: JsonValue)
        ensures
            r@ == Json::Object(seq![("request"@, jstr(self.request@))] + version_member(self.version)),
    {
        let mut m = Members::new();
        m.add_str("request", self.request.as_str());
        m.add_opt_str("version", &self.version);
        proof {
            assert(m@ =~= seq![("request"@, jstr(self.request@))] + version_member(self.version));
        }
        m.into_object()
    }
}

impl FeedbackJson for RequestJson {
    fn set_version(&mut self, value: &str)
        ensures
            final(self).request == old(self).request,
            final(self).version matches Some(v) && v@ == value@,
    {
        self.version = Some(String::from_str(value));
    }
}

} // verus!
