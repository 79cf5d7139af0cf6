//! Reading and changing the extra attributes of a file.

pub mod reset;
pub mod set;

use vstd::prelude::*;

use crate::auth::strings_view;
use crate::error::{Error, ErrorView};
use crate::files::{fs_path, write_fs_path};
use crate::request::{jstr, request_to, url_of, Json, Members, Method, Request, RequestView};
use crate::text::{chars_of, chars_of_string, concat, ends_with, range_ends_with, string_of};

verus! {

/// The extra attributes of a file.
#[derive(Clone, Debug, PartialEq, Eq, Hash)]
pub struct ExtraAttributes {
    pub name: String,
    pub apf_authorized: bool,
    pub program_controlled: bool,
    pub shared_address_space: bool,
    pub shared_library: bool,
    pub transaction_id: String,
}

/// The text that `{:?}` writes for a list of strings.
pub uninterp spec fn debug_strings(lines: Seq<Seq<char>>) -> Seq<char>;

/// Writes a list of strings as `{:?}` does (`<[String] as Debug>::fmt`,
/// which writes a `Vec<String>` as it writes the `[Box<str>]` of an answer).
/// What it claims: the text depends on the strings alone.
#[verifier::external_body]
fn debug_lines(lines: &Vec<String>) -> (r: String)
    ensures
        r@ == debug_strings(strings_view(lines@)),
{
    format!("{:?}", lines)
}

/// The attribute flag at the end of a line: the line ends with `YES`.
pub open spec fn flag_set(line: Seq<char>) -> bool {
    ends_with(line, "YES"@)
}

/// Tests whether a line ends with `YES`.
fn line_flag(line: &String) -> (r: bool)
    ensures
        r == flag_set(line@),
{
    let v = chars_of_string(line);
    let yes = chars_of("YES");
    let r = range_ends_with(&v, 0, v.len(), &yes);
    proof {
        assert(v@.subrange(0, v.len() as int) =~= v@);
    }
    r
}

impl ExtraAttributes {
    /// Reads the extra attributes from the lines of `extattr`'s output, which
    /// must be five: the file's name, then the flags for APF authorization,
    /// program control, the shared address space and the shared library.
    pub fn from_lines(
        transaction_id: String,
        stdout: &Vec<String>,
    ) -> (r: Result<ExtraAttributes, Error>)
        ensures
            match r {
                Ok(v) => {
                    let lines = strings_view(stdout@);
                    &&& lines.len() == 5
                    &&& v.name@ == lines[0]
                    &&& v.apf_authorized == flag_set(lines[1])
                    &&& v.program_controlled == flag_set(lines[2])
                    &&& v.shared_address_space == flag_set(lines[3])
                    &&& v.shared_library == flag_set(lines[4])
                    &&& v.transaction_id == transaction_id
                },
                Err(e) => stdout.len() != 5 && e@ == ErrorView::Custom(
                    "invalid return value format: "@ + debug_strings(strings_view(stdout@)),
                ),
            },
    {
        if stdout.len() != 5 {
            let d = debug_lines(stdout);
            return Err(Error::Custom(concat("invalid return value format: ", d.as_str())));
        }
        Ok(ExtraAttributes {
            name: stdout[0].clone(),
            apf_authorized: line_flag(&stdout[1]),
            program_controlled: line_flag(&stdout[2]),
            shared_address_space: line_flag(&stdout[3]),
            shared_library: line_flag(&stdout[4]),
            transaction_id,
        })
    }

    /// The file's name.
    pub fn name(&self) -> (r: &str)
        ensures
            r@ == self.name@,
    {
        self.name.as_str()
    }

    /// Whether the file is APF authorized.
    pub fn apf_authorized(&self) -> (r: bool)
        ensures
            r == self.apf_authorized,
    {
        self.apf_authorized
    }

    /// Whether the file is program controlled.
    pub fn program_controlled(&self) -> (r: bool)
        ensures
            r == self.program_controlled,
    {
        self.program_controlled
    }

    /// Whether the file runs in a shared address space.
    pub fn shared_address_space(&self) -> (r: bool)
        ensures
            r == self.shared_address_space,
    {
        self.shared_address_space
    }

    /// Whether the file is a shared library.
    pub fn shared_library(&self) -> (r: bool)
        ensures
            r == self.shared_library,
    {
        self.shared_library
    }

    /// The transaction id.
    pub fn transaction_id(&self) -> (r: &str)
        ensures
            r@ == self.transaction_id@,
    {
        self.transaction_id.as_str()
    }
}

/// The letters of the attributes that are chosen, in the order `a` (APF
/// authorization), `l` (shared library), `p` (program control), `s` (shared
/// address space).
pub open spec fn attribute_letters(
    apf: bool,
    library: bool,
    program: bool,
    space: bool,
) -> Seq<char> {
    (if apf { seq!['a'] } else { Seq::empty() }) + (if library { seq!['l'] } else { Seq::empty() }) + (
    if program {
        seq!['p']
    } else {
        Seq::empty()
    }) + (if space { seq!['s'] } else { Seq::empty() })
}

/// The letters of the attributes that are chosen.
pub fn write_attribute_letters(apf: bool, library: bool, program: bool, space: bool) -> (r: String)
    ensures
        r@ == attribute_letters(apf, library, program, space),
{
    let mut v: Vec<char> = Vec::new();
    if apf {
        v.push('a');
    }
    let ghost v1 = v@;
    if library {
        v.push('l');
    }
    let ghost v2 = v@;
    if program {
        v.push('p');
    }
    let ghost v3 = v@;
    if space {
        v.push('s');
    }
    proof {
        assert(v1 =~= (if apf { seq!['a'] } else { Seq::<char>::empty() }));
        assert(v2 =~= v1 + (if library { seq!['l'] } else { Seq::<char>::empty() }));
        assert(v3 =~= v2 + (if program { seq!['p'] } else { Seq::<char>::empty() }));
        assert(v@ =~= v3 + (if space { seq!['s'] } else { Seq::<char>::empty() }));
    }
    string_of(&v)
}

/// A request that reads the extra attributes of a file (`extattr`).
#[derive(Clone, Debug)]
pub struct ExtraAttributesBuilder {
    pub base_url: String,
    pub path: String,
}

impl ExtraAttributesBuilder {
    /// The builder as it is first made.
    pub open spec fn is_new(self, base_url: Seq<char>, path: Seq<char>) -> bool {
        &&& self.base_url@ == base_url
        &&& self.path@ == path
    }

    /// A builder that reads the extra attributes of the file at `path`.
    pub fn new(base_url: String, path: &str) -> (r: ExtraAttributesBuilder)
        ensures
            r.is_new(base_url@, path@),
    {
        ExtraAttributesBuilder {
            base_url,
            path: String::from_str(path),
        }
    }

    /// The members of the body, in order.
    pub open spec fn members(&self) -> Seq<(Seq<char>, Json)> {
        seq![("request"@, jstr("extattr"@))]
    }

    /// The request that this builder describes.
    pub open spec fn spec_request(&self) -> RequestView {
        request_to(Method::Put, url_of(self.base_url@, fs_path(self.path@))).with_json(
            Json::Object(self.members()),
        )
    }

    /// The request: `PUT` on the file with an `extattr` body.
    pub fn get_request(&self) -> (r: Request)
        ensures
            r@ == self.spec_request(),
    {
        let path = write_fs_path(self.path.as_str());
        let mut r = Request::new(Method::Put, self.base_url.as_str(), &path);
        let mut m = Members::new();
        m.add_str("request", "extattr");
        proof {
            assert(m@ =~= self.members());
        }
        r.set_json(m.into_object());
        r
    }
}

} // verus!
