//! Listing the tags of files.

use vstd::prelude::*;

use crate::auth::strings_view;
use crate::error::{Error, ErrorView};
use crate::files::{fs_path, write_fs_path, FileTagType};
use crate::request::{
    jstr, opt_str_view, opt_view, request_to, url_of, Json, Members, Method, Request, RequestView,
};
use crate::text::{
    byte_slice, char_index, chars_of, find_boundary, is_char_boundary, lemma_boundary_order,
    range_eq, string_of_range, trim_end, trim_end_range, utf8_len,
};

verus! {

/// The tag of one file, as a line of `chtag -p` shows it.
#[derive(Clone, Debug, PartialEq, Eq)]
pub struct FileTag {
    pub tag_type: Option<FileTagType>,
    pub code_set: Option<String>,
    pub text_flag: bool,
    pub path: String,
}

/// The mathematical value of a [`FileTag`].
pub struct FileTagView {
    pub tag_type: Option<FileTagType>,
    pub code_set: Option<Seq<char>>,
    pub text_flag: bool,
    pub path: Seq<char>,
}

impl View for FileTag {
    type V = FileTagView;

    open spec fn view(&self) -> FileTagView {
        FileTagView {
            tag_type: self.tag_type,
            code_set: opt_view(self.code_set),
            text_flag: self.text_flag,
            path: self.path@,
        }
    }
}

/// The kind of data named by the first character of a tag line: `-` for
/// none, `b`, `m` or `t`; any other character names nothing.
pub open spec fn tag_type_of(c: char) -> Option<Option<FileTagType>> {
    if c == '-' {
        Some(None)
    } else if c == 'b' {
        Some(Some(FileTagType::Binary))
    } else if c == 'm' {
        Some(Some(FileTagType::Mixed))
    } else if c == 't' {
        Some(Some(FileTagType::Text))
    } else {
        None
    }
}

/// A tag line can be read without slicing it inside a character: its first
/// character takes one byte, and, when that character names a kind, bytes 2,
/// 14, 18 and 20 start characters (or end the line).
pub open spec fn file_tag_readable(s: Seq<char>) -> bool {
    &&& s.len() > 0
    &&& utf8_len(s[0]) == 1
    &&& tag_type_of(s[0]) is Some ==> {
        &&& is_char_boundary(s, 2)
        &&& is_char_boundary(s, 14)
        &&& is_char_boundary(s, 18)
        &&& is_char_boundary(s, 20)
    }
}

/// Reading a tag line: the kind from the first character, the code set from
/// bytes 2 to 14 (none when it reads `untagged`), the text flag from bytes 14
/// to 18 (`T=on`), and the path from byte 20 on.
pub open spec fn file_tag_from_text(s: Seq<char>) -> Result<FileTagView, ErrorView> {
    match tag_type_of(s[0]) {
        None => Err(ErrorView::Custom("invalid file tag string"@)),
        Some(tag_type) => {
            let code_set = trim_end(byte_slice(s, 2, 14));
            Ok(
                FileTagView {
                    tag_type,
                    code_set: if code_set == "untagged"@ {
                        None
                    } else {
                        Some(code_set)
                    },
                    text_flag: trim_end(byte_slice(s, 14, 18)) == "T=on"@,
                    path: s.skip(char_index(s, 20)),
                },
            )
        },
    }
}

/// The view of the result of reading a tag line.
pub open spec fn file_tag_result(r: Result<FileTag, Error>) -> Result<FileTagView, ErrorView> {
    match r {
        Ok(t) => Ok(t@),
        Err(e) => Err(e@),
    }
}

/// The tags read from lines, in order, stopping at the first line that is
/// not a tag.
pub open spec fn file_tags_from_lines(lines: Seq<Seq<char>>) -> Result<Seq<FileTagView>, ErrorView>
    decreases lines.len(),
{
    if lines.len() == 0 {
        Ok(Seq::empty())
    } else {
        match file_tags_from_lines(lines.drop_last()) {
            Err(e) => Err(e),
            Ok(tags) => match file_tag_from_text(lines.last()) {
                Ok(t) => Ok(tags.push(t)),
                Err(e) => Err(e),
            },
        }
    }
}

proof fn lemma_tags_error_persists(lines: Seq<Seq<char>>, k: int, e: ErrorView)
    requires
        0 <= k <= lines.len(),
        file_tags_from_lines(lines.take(k)) == Err::<Seq<FileTagView>, ErrorView>(e),
    ensures
        file_tags_from_lines(lines) == Err::<Seq<FileTagView>, ErrorView>(e),
    decreases lines.len() - k,
{
    if k == lines.len() {
        assert(lines.take(k) =~= lines);
    } else {
        assert(lines.take(k + 1).drop_last() =~= lines.take(k));
        lemma_tags_error_persists(lines, k + 1, e);
    }
}

/// Every line that reading comes to can be read without slicing it inside a
/// character.
pub open spec fn file_tag_lines_readable(lines: Seq<Seq<char>>) -> bool {
    forall|i: int|
        0 <= i < lines.len() && file_tags_from_lines(lines.take(i)) is Ok ==> file_tag_readable(
            #[trigger] lines[i],
        )
}

/// The tags of some files, with the transaction id of the answer.
#[derive(Clone, Debug)]
pub struct FileListTag {
    pub tags: Vec<FileTag>,
    pub transaction_id: String,
}

/// The views of a sequence of tags.
pub open spec fn tags_view(tags: Seq<FileTag>) -> Seq<FileTagView> {
    Seq::new(tags.len(), |i: int| tags[i]@)
}

impl FileTag {
    /// Reads a tag line, as `chtag -p` writes it.
    pub fn from_str(s: &str) -> (r: Result<FileTag, Error>)
        requires
            file_tag_readable(s@),
        ensures
            file_tag_result(r) == file_tag_from_text(s@),
    {
        let v = chars_of(s);
        let tag_type = match v[0] {
            '-' => None,
            'b' => Some(FileTagType::Binary),
            'm' => Some(FileTagType::Mixed),
            't' => Some(FileTagType::Text),
            _ => return Err(Error::Custom(String::from_str("invalid file tag string"))),
        };
        let b2 = find_boundary(&v, 2).unwrap();
        let b14 = find_boundary(&v, 14).unwrap();
        let b18 = find_boundary(&v, 18).unwrap();
        let b20 = find_boundary(&v, 20).unwrap();
        proof {
            lemma_boundary_order(v@, b2 as int, 2, b14 as int, 14);
            lemma_boundary_order(v@, b14 as int, 14, b18 as int, 18);
            lemma_boundary_order(v@, b18 as int, 18, b20 as int, 20);
        }
        let code_end = trim_end_range(&v, b2, b14);
        let untagged = chars_of("untagged");
        let code_set = if range_eq(&v, b2, code_end, &untagged) {
            None
        } else {
            Some(string_of_range(&v, b2, code_end))
        };
        let flag_end = trim_end_range(&v, b14, b18);
        let on = chars_of("T=on");
        let text_flag = range_eq(&v, b14, flag_end, &on);
        let path = string_of_range(&v, b20, v.len());
        proof {
            assert(v@.subrange(b20 as int, v.len() as int) =~= v@.skip(b20 as int));
        }
        Ok(FileTag { tag_type, code_set, text_flag, path })
    }

    /// The kind of data of the file, if it is tagged.
    pub fn tag_type(&self) -> (r: Option<FileTagType>)
        ensures
            r == self.tag_type,
    {
        self.tag_type
    }

    /// The code set of the file, if it has one.
    pub fn code_set(&self) -> (r: Option<&str>)
        ensures
            opt_str_view(r) == opt_view(self.code_set),
    {
        match &self.code_set {
            Some(s) => Some(s.as_str()),
            None => None,
        }
    }

    /// Whether the file's text flag is on.
    pub fn text_flag(&self) -> (r: bool)
        ensures
            r == self.text_flag,
    {
        self.text_flag
    }

    /// The path of the file.
    pub fn path(&self) -> (r: &str)
        ensures
            r@ == self.path@,
    {
        self.path.as_str()
    }
}

impl FileListTag {
    /// Reads the tags of an answer from the lines of its output, in order;
    /// the first line that is not a tag makes the error.
    pub fn from_lines(
        transaction_id: String,
        stdout: &Vec<String>,
    ) -> (r: Result<FileListTag, Error>)
        requires
            file_tag_lines_readable(strings_view(stdout@)),
        ensures
            match r {
                Ok(v) => file_tags_from_lines(strings_view(stdout@)) == Ok::<
                    Seq<FileTagView>,
                    ErrorView,
                >(tags_view(v.tags@)) && v.transaction_id == transaction_id,
                Err(e) => file_tags_from_lines(strings_view(stdout@)) == Err::<
                    Seq<FileTagView>,
                    ErrorView,
                >(e@),
            },
    {
        let ghost lines = strings_view(stdout@);
        let mut tags: Vec<FileTag> = Vec::new();
        let mut i: usize = 0;
        proof {
            assert(lines.take(0) =~= Seq::<Seq<char>>::empty());
            assert(tags_view(tags@) =~= Seq::<FileTagView>::empty());
        }
        while i < stdout.len()
            invariant
                0 <= i <= stdout.len(),
                lines == strings_view(stdout@),
                file_tag_lines_readable(lines),
                file_tags_from_lines(lines.take(i as int)) == Ok::<Seq<FileTagView>, ErrorView>(
                    tags_view(tags@),
                ),
            decreases stdout.len() - i,
        {
            let ghost before = lines.take(i as int);
            let ghost after = lines.take(i + 1);
            proof {
                assert(after.drop_last() =~= before);
                assert(after.last() == lines[i as int]);
                assert(lines[i as int] == stdout@[i as int]@);
                assert(file_tag_readable(lines[i as int]));
            }
            match FileTag::from_str(stdout[i].as_str()) {
                Ok(t) => {
                    let ghost tv = t@;
                    let ghost prev = tags@;
                    tags.push(t);
                    proof {
                        assert(tags_view(tags@) =~= tags_view(prev).push(tv));
                    }
                },
                Err(e) => {
                    proof {
                        lemma_tags_error_persists(lines, i + 1, e@);
                    }
                    return Err(e);
                },
            }
            i = i + 1;
        }
        proof {
            assert(lines.take(stdout.len() as int) =~= lines);
        }
        Ok(FileListTag { tags, transaction_id })
    }

    /// The tags, in the order of the answer.
    pub fn tags(&self) -> (r: &Vec<FileTag>)
        ensures
            r == &self.tags,
    {
        &self.tags
    }

    /// The transaction id.
    pub fn transaction_id(&self) -> (r: &str)
        ensures
            r@ == self.transaction_id@,
    {
        self.transaction_id.as_str()
    }
}

/// A request that lists the tags of files.
#[derive(Clone, Debug)]
pub struct FileListTagBuilder {
    pub base_url: String,
    pub path: String,
    pub recursive: bool,
}

impl FileListTagBuilder {
    /// The builder as it is first made.
    pub open spec fn is_new(self, base_url: Seq<char>, path: Seq<char>) -> bool {
        &&& self.base_url@ == base_url
        &&& self.path@ == path
        &&& self.recursive == false
    }

    /// A builder that lists the tags at `path`.
    pub fn new(base_url: String, path: &str) -> (r: FileListTagBuilder)
        ensures
            r.is_new(base_url@, path@),
    {
        FileListTagBuilder {
            base_url,
            path: String::from_str(path),
            recursive: false,
        }
    }

    /// Lists the tags of a directory's contents too.
    pub fn recursive(self, value: bool) -> (r: FileListTagBuilder)
        ensures
            r == (FileListTagBuilder { recursive: value, ..self }),
    {
        FileListTagBuilder { recursive: value, ..self }
    }

    /// The members of the body, in order.
    pub open spec fn members(&self) -> Seq<(Seq<char>, Json)> {
        seq![
            ("request"@, jstr("chtag"@)),
            ("action"@, jstr("list"@)),
            ("recursive"@, Json::Bool(self.recursive)),
        ]
    }

    /// The request that this builder describes.
    pub open spec fn spec_request(&self) -> RequestView {
        request_to(Method::Put, url_of(self.base_url@, fs_path(self.path@))).with_json(
            Json::Object(self.members()),
        )
    }

    /// The request: `PUT` on the path with a `chtag` list body.
    pub fn get_request(&self) -> (r: Request)
        ensures
            r@ == self.spec_request(),
    {
        let path = write_fs_path(self.path.as_str());
        let mut r = Request::new(Method::Put, self.base_url.as_str(), &path);
        let mut m = Members::new();
        m.add_str("request", "chtag");
        m.add_str("action", "list");
        m.add_bool("recursive", self.recursive);
        proof {
            assert(m@ =~= self.members());
        }
        r.set_json(m.into_object());
        r
    }
}

} // verus!
