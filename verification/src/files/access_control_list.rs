//! Reading the access control list of a file.

use vstd::prelude::*;

use crate::auth::strings_view;
use crate::error::{Error, ErrorView};
use crate::files::{fs_path, write_fs_path};
use crate::request::{
    jstr, member_opt, opt_str_view, opt_view, request_to, str_json, url_of, Json, JsonValue, Members, Method,
    Request, RequestView,
};
use crate::text::{
    chars_of, chars_of_string, string_of_range, strip_all_prefix, strip_all_prefix_range, trim,
    trim_end_range, trim_start_range,
};

verus! {

/// Which access control list is read.
#[derive(Clone, Copy, Debug, PartialEq, Eq, Structural, Hash)]
pub enum FileAccessControlType {
    Access,
    Directory,
    File,
}

impl FileAccessControlType {
    /// The name of this value in requests and answers.
    pub open spec fn text(self) -> Seq<char> {
        match self {
            FileAccessControlType::Access => "access"@,
            FileAccessControlType::Directory => "dir"@,
            FileAccessControlType::File => "file"@,
        }
    }

    /// The name of this value in requests and answers.
    pub fn as_str(&self) -> (r: &'static str)
        ensures
            r@ == self.text(),
    {
        match self {
            FileAccessControlType::Access => "access",
            FileAccessControlType::Directory => "dir",
            FileAccessControlType::File => "file",
        }
    }
}

/// The access control list of a file.
#[derive(Clone, Debug)]
pub struct FileGetAccessControlList {
    pub name: String,
    pub owner: String,
    pub group: String,
    pub user_access: Option<String>,
    pub group_access: Option<String>,
    pub other_access: Option<String>,
    pub transaction_id: String,
}

/// The text of a line after its label: every leading repetition of `label`
/// removed, then the white space around what is left.
pub open spec fn labelled(line: Seq<char>, label: Seq<char>) -> Seq<char> {
    trim(strip_all_prefix(line, label))
}

/// Line `i` of `lines` with every leading repetition of `label` removed, if
/// there is such a line.
pub open spec fn optional_line(
    lines: Seq<Seq<char>>,
    i: int,
    label: Seq<char>,
) -> Option<Seq<char>> {
    if i < lines.len() {
        Some(strip_all_prefix(lines[i], label))
    } else {
        None
    }
}

/// The message for an access control list that stops after `n` lines.
pub open spec fn acl_missing_message(n: int) -> Seq<char> {
    if n == 0 {
        "invalid get access control list data: failed to get name"@
    } else if n == 1 {
        "invalid get access control list data: failed to get owner"@
    } else {
        "invalid get access control list data: failed to get group"@
    }
}

/// `line` with every leading repetition of `label` removed, and then, when
/// `trimmed`, the white space around it.
fn strip_label(line: &String, label: &str, trimmed: bool) -> (r: String)
    ensures
        r@ == (if trimmed {
            labelled(line@, label@)
        } else {
            strip_all_prefix(line@, label@)
        }),
{
    let v = chars_of_string(line);
    let p = chars_of(label);
    let n = v.len();
    let lo = strip_all_prefix_range(&v, 0, n, &p);
    proof {
        assert(v@.subrange(0, n as int) =~= v@);
    }
    if !trimmed {
        return string_of_range(&v, lo, n);
    }
    let lo2 = trim_start_range(&v, lo, n);
    let hi = trim_end_range(&v, lo2, n);
    string_of_range(&v, lo2, hi)
}

impl FileGetAccessControlList {
    /// Reads an access control list from the lines of `getfacl`'s output: the
    /// file's name, owner and group, which must be there, then the access of
    /// the user, the group and others, each if there is a line for it.
    pub fn from_lines(
        transaction_id: String,
        stdout: &Vec<String>,
    ) -> (r: Result<FileGetAccessControlList, Error>)
        ensures
            match r {
                Ok(v) => {
                    let lines = strings_view(stdout@);
                    &&& lines.len() >= 3
                    &&& v.name@ == labelled(lines[0], "#file:"@)
                    &&& v.owner@ == labelled(lines[1], "#owner:"@)
                    &&& v.group@ == labelled(lines[2], "#group:"@)
                    &&& opt_view(v.user_access) == optional_line(lines, 3, "user::"@)
                    &&& opt_view(v.group_access) == optional_line(lines, 4, "group::"@)
                    &&& opt_view(v.other_access) == optional_line(lines, 5, "other::"@)
                    &&& v.transaction_id == transaction_id
                },
                Err(e) => stdout.len() < 3 && e@ == ErrorView::Custom(
                    acl_missing_message(stdout.len() as int),
                ),
            },
    {
        let n = stdout.len();
        if n < 3 {
            let m = if n == 0 {
                "invalid get access control list data: failed to get name"
            } else if n == 1 {
                "invalid get access control list data: failed to get owner"
            } else {
                "invalid get access control list data: failed to get group"
            };
            return Err(Error::Custom(String::from_str(m)));
        }
        let name = strip_label(&stdout[0], "#file:", true);
        let owner = strip_label(&stdout[1], "#owner:", true);
        let group = strip_label(&stdout[2], "#group:", true);
        let user_access = if n > 3 { Some(strip_label(&stdout[3], "user::", false)) } else { None };
        let group_access = if n > 4 { Some(strip_label(&stdout[4], "group::", false)) } else { None };
        let other_access = if n > 5 { Some(strip_label(&stdout[5], "other::", false)) } else { None };
        Ok(
            FileGetAccessControlList {
                name,
                owner,
                group,
                user_access,
                group_access,
                other_access,
                transaction_id,
            },
        )
    }

    /// The file's name.
    pub fn name(&self) -> (r: &str)
        ensures
            r@ == self.name@,
    {
        self.name.as_str()
    }

    /// The file's owner.
    pub fn owner(&self) -> (r: &str)
        ensures
            r@ == self.owner@,
    {
        self.owner.as_str()
    }

    /// The file's group.
    pub fn group(&self) -> (r: &str)
        ensures
            r@ == self.group@,
    {
        self.group.as_str()
    }

    /// The access of the file's user.
    pub fn user_access(&self) -> (r: Option<&str>)
        ensures
            opt_str_view(r) == opt_view(self.user_access),
    {
        match &self.user_access {
            Some(s) => Some(s.as_str()),
            None => None,
        }
    }

    /// The access of the file's group.
    pub fn group_access(&self) -> (r: Option<&str>)
        ensures
            opt_str_view(r) == opt_view(self.group_access),
    {
        match &self.group_access {
            Some(s) => Some(s.as_str()),
            None => None,
        }
    }

    /// The access of others.
    pub fn other_access(&self) -> (r: Option<&str>)
        ensures
            opt_str_view(r) == opt_view(self.other_access),
    {
        match &self.other_access {
            Some(s) => Some(s.as_str()),
            None => None,
        }
    }

    /// The transaction id.
    pub fn transaction_id(&self) -> (r: &str)
        ensures
            r@ == self.transaction_id@,
    {
        self.transaction_id.as_str()
    }
}

/// A request that reads the access control list of a file (`getfacl`).
#[derive(Clone, Debug)]
pub struct FileGetAccessControlListBuilder {
    pub base_url: String,
    pub path: String,
    pub access_control_type: Option<FileAccessControlType>,
    pub user: Option<String>,
}

impl FileGetAccessControlListBuilder {
    /// The builder as it is first made.
    pub open spec fn is_new(self, base_url: Seq<char>, path: Seq<char>) -> bool {
        &&& self.base_url@ == base_url
        &&& self.path@ == path
        &&& self.access_control_type is None
        &&& self.user is None
    }

    /// A builder that reads the access control list of the file at `path`.
    pub fn new(base_url: String, path: &str) -> (r: FileGetAccessControlListBuilder)
        ensures
            r.is_new(base_url@, path@),
    {
        FileGetAccessControlListBuilder {
            base_url,
            path: String::from_str(path),
            access_control_type: None,
            user: None,
        }
    }

    /// Sets which list is read.
    pub fn access_control_type(
        self,
        value: FileAccessControlType,
    ) -> (r: FileGetAccessControlListBuilder)
        ensures
            r == (FileGetAccessControlListBuilder { access_control_type: Some(value), ..self }),
    {
        FileGetAccessControlListBuilder { access_control_type: Some(value), ..self }
    }

    /// Reads the entries of one user.
    pub fn user(self, value: &str) -> (r: FileGetAccessControlListBuilder)
        ensures
            r.user matches Some(s) && s@ == value@,
            r == (FileGetAccessControlListBuilder { user: r.user, ..self }),
    {
        FileGetAccessControlListBuilder { user: Some(String::from_str(value)), ..self }
    }

    /// The members of the body, in order.
    pub open spec fn members(&self) -> Seq<(Seq<char>, Json)> {
        seq![("request"@, jstr("getfacl"@))] + member_opt(
            "type"@,
            match self.access_control_type {
                Some(e) => Some(jstr(e.text())),
                None => None,
            },
        ) + member_opt("user"@, str_json(self.user))
    }

    /// The request that this builder describes.
    pub open spec fn spec_request(&self) -> RequestView {
        request_to(Method::Put, url_of(self.base_url@, fs_path(self.path@))).with_json(
            Json::Object(self.members()),
        )
    }

    /// The request: `PUT` on the file with a `getfacl` body.
    pub fn get_request(&self) -> (r: Request)
        ensures
            r@ == self.spec_request(),
    {
        let path = write_fs_path(self.path.as_str());
        let mut r = Request::new(Method::Put, self.base_url.as_str(), &path);
        let mut m = Members::new();
        m.add_str("request", "getfacl");
        m.add_opt(
            "type",
            match self.access_control_type {
                Some(e) => Some(JsonValue::Str(String::from_str(e.as_str()))),
                None => None,
            },
        );
        m.add_opt_str("user", &self.user);
        proof {
            assert(m@ =~= self.members());
        }
        r.set_json(m.into_object());
        r
    }
}

} // verus!
