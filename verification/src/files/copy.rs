//! Copying a file or a directory.

use vstd::prelude::*;

use crate::files::{fs_path, write_fs_path};
use crate::request::{
    jstr, member_opt, request_to, url_of, Json, JsonValue, Members, Method, Request, RequestView,
};

verus! {

/// Which symbolic links a copy follows.
#[derive(Clone, Copy, Debug, PartialEq, Eq, Structural, Hash)]
pub enum Links {
    All,
    Nothing,
    Source,
}

impl Links {
    /// The name of this value in requests and answers.
    pub open spec fn text(self) -> Seq<char> {
        match self {
            Links::All => "all"@,
            Links::Nothing => "none"@,
            Links::Source => "src"@,
        }
    }

    /// The name of this value in requests and answers.
    pub fn as_str(&self) -> (r: &'static str)
        ensures
            r@ == self.text(),
    {
        match self {
            Links::All => "all",
            Links::Nothing => "none",
            Links::Source => "src",
        }
    }
}

/// Which attributes a copy keeps.
#[derive(Clone, Copy, Debug, PartialEq, Eq, Structural, Hash)]
pub enum Preserve {
    All,
    ModificationTime,
    Nothing,
}

impl Preserve {
    /// The name of this value in requests and answers.
    pub open spec fn text(self) -> Seq<char> {
        match self {
            Preserve::All => "all"@,
            Preserve::ModificationTime => "modtime"@,
            Preserve::Nothing => "none"@,
        }
    }

    /// The name of this value in requests and answers.
    pub fn as_str(&self) -> (r: &'static str)
        ensures
            r@ == self.text(),
    {
        match self {
            Preserve::All => "all",
            Preserve::ModificationTime => "modtime",
            Preserve::Nothing => "none",
        }
    }
}

/// A request that copies a file or a directory.
#[derive(Clone, Debug)]
pub struct CopyBuilder {
    pub base_url: String,
    pub from_path: String,
    pub to_path: String,
    pub overwrite: Option<bool>,
    pub recursive: Option<bool>,
    pub links: Option<Links>,
    pub preserve: Option<Preserve>,
}

impl CopyBuilder {
    /// The builder as it is first made.
    pub open spec fn is_new(
        self,
        base_url: Seq<char>,
        from_path: Seq<char>,
        to_path: Seq<char>,
    ) -> bool {
        &&& self.base_url@ == base_url
        &&& self.from_path@ == from_path
        &&& self.to_path@ == to_path
        &&& self.overwrite is None
        &&& self.recursive is None
        &&& self.links is None
        &&& self.preserve is None
    }

    /// A builder that copies `from_path` to `to_path`.
    pub fn new(base_url: String, from_path: &str, to_path: &str) -> (r: CopyBuilder)
        ensures
            r.is_new(base_url@, from_path@, to_path@),
    {
        CopyBuilder {
            base_url,
            from_path: String::from_str(from_path),
            to_path: String::from_str(to_path),
            overwrite: None,
            recursive: None,
            links: None,
            preserve: None,
        }
    }

    /// Replaces what stands at the target.
    pub fn overwrite(self, value: bool) -> (r: CopyBuilder)
        ensures
            r == (CopyBuilder { overwrite: Some(value), ..self }),
    {
        CopyBuilder { overwrite: Some(value), ..self }
    }

    /// Copies the contents of a directory too.
    pub fn recursive(self, value: bool) -> (r: CopyBuilder)
        ensures
            r == (CopyBuilder { recursive: Some(value), ..self }),
    {
        CopyBuilder { recursive: Some(value), ..self }
    }

    /// Sets which symbolic links are followed.
    pub fn links(self, value: Links) -> (r: CopyBuilder)
        ensures
            r == (CopyBuilder { links: Some(value), ..self }),
    {
        CopyBuilder { links: Some(value), ..self }
    }

    /// Sets which attributes are kept.
    pub fn preserve(self, value: Preserve) -> (r: CopyBuilder)
        ensures
            r == (CopyBuilder { preserve: Some(value), ..self }),
    {
        CopyBuilder { preserve: Some(value), ..self }
    }

    /// The members of the body, in order.
    pub open spec fn members(&self) -> Seq<(Seq<char>, Json)> {
        seq![
            ("request"@, jstr("copy"@)),
            ("from"@, jstr(self.from_path@)),
            ("overwrite"@, Json::Bool(self.overwrite == Some(true))),
            ("recursive"@, Json::Bool(self.recursive == Some(true))),
        ] + member_opt(
            "links"@,
            match self.links {
                Some(e) => Some(jstr(e.text())),
                None => None,
            },
        ) + member_opt(
            "preserve"@,
            match self.preserve {
                Some(e) => Some(jstr(e.text())),
                None => None,
            },
        )
    }

    /// The request that this builder describes.
    pub open spec fn spec_request(&self) -> RequestView {
        request_to(Method::Put, url_of(self.base_url@, fs_path(self.to_path@))).with_json(
            Json::Object(self.members()),
        )
    }

    /// The request: `PUT` on the target with a `copy` body.
    pub fn get_request(&self) -> (r: Request)
        ensures
            r@ == self.spec_request(),
    {
        let path = write_fs_path(self.to_path.as_str());
        let mut r = Request::new(Method::Put, self.base_url.as_str(), &path);
        let mut m = Members::new();
        m.add_str("request", "copy");
        m.add_str("from", self.from_path.as_str());
        m.add_bool("overwrite", self.overwrite == Some(true));
        m.add_bool("recursive", self.recursive == Some(true));
        m.add_opt(
            "links",
            match self.links {
                Some(e) => Some(JsonValue::Str(String::from_str(e.as_str()))),
                None => None,
            },
        );
        m.add_opt(
            "preserve",
            match self.preserve {
                Some(e) => Some(JsonValue::Str(String::from_str(e.as_str()))),
                None => None,
            },
        );
        proof {
            assert(m@ =~= self.members());
        }
        r.set_json(m.into_object());
        r
    }
}

} // verus!
