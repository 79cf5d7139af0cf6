//! Listing files, and the filters that a listing takes.

use vstd::prelude::*;

use crate::jobs::list::{opt_number, opt_number_string};
use crate::request::{opt_view, request_to, url_of, Method, Request, RequestView};
use crate::text::{
    all_digits, chars_of, decimal, is_digit, lemma_decimal, lemma_u32_from_decimal,
    parse_u32_range, string_of, strip_all_prefix, strip_all_prefix_range, strip_all_suffix,
    strip_all_suffix_range, u32_chars, u32_from_str, IntErrorKind,
};

verus! {

/// A file of a listing.
#[derive(Clone, Debug, PartialEq, Eq, Hash)]
pub struct FileAttributes {
    pub name: String,
    pub mode: String,
    pub size: i32,
    pub uid: i32,
    pub user: Option<String>,
    pub gid: i32,
    pub group: String,
    /// The time of the last change, as the answer writes it
    /// (`YYYY-MM-DDThh:mm:ss`).
    pub mtime: String,
    pub target: Option<String>,
}

/// The files at a path, with the counts and the transaction id of the answer.
#[derive(Clone, Debug, PartialEq, Eq, Hash)]
pub struct FileList {
    pub items: Vec<FileAttributes>,
    pub returned_rows: i32,
    pub total_rows: i32,
    pub json_version: i32,
    pub transaction_id: String,
}

impl FileList {
    /// The files, in the order of the answer.
    pub fn items(&self) -> (r: &Vec<FileAttributes>)
        ensures
            r == &self.items,
    {
        &self.items
    }

    /// The number of files returned.
    pub fn returned_rows(&self) -> (r: i32)
        ensures
            r == self.returned_rows,
    {
        self.returned_rows
    }

    /// The number of files there are.
    pub fn total_rows(&self) -> (r: i32)
        ensures
            r == self.total_rows,
    {
        self.total_rows
    }

    /// The version of the answer's format.
    pub fn json_version(&self) -> (r: i32)
        ensures
            r == self.json_version,
    {
        self.json_version
    }

    /// The transaction id.
    pub fn transaction_id(&self) -> (r: &str)
        ensures
            r@ == self.transaction_id@,
    {
        self.transaction_id.as_str()
    }
}

impl FileAttributes {
    /// The file's name.
    pub fn name(&self) -> (r: &str)
        ensures
            r@ == self.name@,
    {
        self.name.as_str()
    }

    /// The file's mode.
    pub fn mode(&self) -> (r: &str)
        ensures
            r@ == self.mode@,
    {
        self.mode.as_str()
    }

    /// The file's size.
    pub fn size(&self) -> (r: i32)
        ensures
            r == self.size,
    {
        self.size
    }

    /// The id of the file's user.
    pub fn uid(&self) -> (r: i32)
        ensures
            r == self.uid,
    {
        self.uid
    }

    /// The name of the file's user, if the answer gives it.
    pub fn user(&self) -> (r: Option<&str>)
        ensures
            crate::request::opt_str_view(r) == opt_view(self.user),
    {
        match &self.user {
            Some(s) => Some(s.as_str()),
            None => None,
        }
    }

    /// The id of the file's group.
    pub fn gid(&self) -> (r: i32)
        ensures
            r == self.gid,
    {
        self.gid
    }

    /// The name of the file's group.
    pub fn group(&self) -> (r: &str)
        ensures
            r@ == self.group@,
    {
        self.group.as_str()
    }

    /// The time of the file's last change.
    pub fn mtime(&self) -> (r: &str)
        ensures
            r@ == self.mtime@,
    {
        self.mtime.as_str()
    }

    /// The target of a symbolic link.
    pub fn target(&self) -> (r: Option<&str>)
        ensures
            crate::request::opt_str_view(r) == opt_view(self.target),
    {
        match &self.target {
            Some(s) => Some(s.as_str()),
            None => None,
        }
    }
}

/// A comparison with a value: below it, equal to it, or above it.
#[derive(Clone, Copy, Debug, PartialEq, Eq, Hash)]
pub enum Filter<T> {
    LessThan(T),
    EqualTo(T),
    GreaterThan(T),
}

/// A file size, in bytes or in kilo-, mega- or gigabytes.
#[derive(Clone, Copy, Debug, PartialEq, Eq, Structural, Hash)]
pub enum FileSize {
    Bytes(u32),
    Kilobytes(u32),
    Megabytes(u32),
    Gigabytes(u32),
}

/// The text of a file size: the number, then `K`, `M` or `G` for a unit
/// above bytes.
pub open spec fn file_size_text(s: FileSize) -> Seq<char> {
    match s {
        FileSize::Bytes(n) => decimal(n as nat),
        FileSize::Kilobytes(n) => decimal(n as nat).push('K'),
        FileSize::Megabytes(n) => decimal(n as nat).push('M'),
        FileSize::Gigabytes(n) => decimal(n as nat).push('G'),
    }
}

/// Reading a file size: a text that ends with `K`, `M` or `G` is a number of
/// that unit, read after every trailing letter of that unit is removed;
/// anything else is a number of bytes.
pub open spec fn file_size_from_text(s: Seq<char>) -> Result<FileSize, IntErrorKind> {
    if s.len() > 0 && s.last() == 'K' {
        match u32_from_str(strip_all_suffix(s, 'K')) {
            Ok(n) => Ok(FileSize::Kilobytes(n)),
            Err(e) => Err(e),
        }
    } else if s.len() > 0 && s.last() == 'M' {
        match u32_from_str(strip_all_suffix(s, 'M')) {
            Ok(n) => Ok(FileSize::Megabytes(n)),
            Err(e) => Err(e),
        }
    } else if s.len() > 0 && s.last() == 'G' {
        match u32_from_str(strip_all_suffix(s, 'G')) {
            Ok(n) => Ok(FileSize::Gigabytes(n)),
            Err(e) => Err(e),
        }
    } else {
        match u32_from_str(s) {
            Ok(n) => Ok(FileSize::Bytes(n)),
            Err(e) => Err(e),
        }
    }
}

/// The text of a filter: `-` for below, `+` for above, then the value.
pub open spec fn filter_text<T>(f: Filter<T>, text: spec_fn(T) -> Seq<char>) -> Seq<char> {
    match f {
        Filter::LessThan(v) => seq!['-'] + text(v),
        Filter::EqualTo(v) => text(v),
        Filter::GreaterThan(v) => seq!['+'] + text(v),
    }
}

/// Reading a filter: a text that starts with `+` is above the value read
/// after every leading `+`, one that starts with `-` is below the value read
/// after every leading `-`, and anything else is equal to the value it reads.
pub open spec fn filter_from_text<T>(
    s: Seq<char>,
    parse: spec_fn(Seq<char>) -> Result<T, IntErrorKind>,
) -> Result<
    Filter<T>,
    IntErrorKind,
> {
    if s.len() > 0 && s[0] == '+' {
        match parse(strip_all_prefix(s, seq!['+'])) {
            Ok(v) => Ok(Filter::GreaterThan(v)),
            Err(e) => Err(e),
        }
    } else if s.len() > 0 && s[0] == '-' {
        match parse(strip_all_prefix(s, seq!['-'])) {
            Ok(v) => Ok(Filter::LessThan(v)),
            Err(e) => Err(e),
        }
    } else {
        match parse(s) {
            Ok(v) => Ok(Filter::EqualTo(v)),
            Err(e) => Err(e),
        }
    }
}

/// The text of a filter on a number of days.
pub open spec fn days_filter_text(f: Filter<u32>) -> Seq<char> {
    filter_text(f, |n: u32| decimal(n as nat))
}

/// Reading a filter on a number of days.
pub open spec fn days_filter_from_text(s: Seq<char>) -> Result<Filter<u32>, IntErrorKind> {
    filter_from_text(s, |t: Seq<char>| u32_from_str(t))
}

/// The text of a filter on a file size.
pub open spec fn size_filter_text(f: Filter<FileSize>) -> Seq<char> {
    filter_text(f, |s: FileSize| file_size_text(s))
}

/// Reading a filter on a file size.
pub open spec fn size_filter_from_text(s: Seq<char>) -> Result<Filter<FileSize>, IntErrorKind> {
    filter_from_text(s, |t: Seq<char>| file_size_from_text(t))
}

/// Reads `v[lo..hi]` as a file size.
fn parse_file_size_range(v: &Vec<char>, lo: usize, hi: usize) -> (r: Result<FileSize, IntErrorKind>)
    requires
        lo <= hi <= v.len(),
    ensures
        r == file_size_from_text(v@.subrange(lo as int, hi as int)),
{
    let ghost t = v@.subrange(lo as int, hi as int);
    if hi > lo {
        let last = v[hi - 1];
        proof {
            assert(t.last() == last);
        }
        if last == 'K' || last == 'M' || last == 'G' {
            let end = strip_all_suffix_range(v, lo, hi, last);
            return match parse_u32_range(v, lo, end) {
                Ok(n) => if last == 'K' {
                    Ok(FileSize::Kilobytes(n))
                } else if last == 'M' {
                    Ok(FileSize::Megabytes(n))
                } else {
                    Ok(FileSize::Gigabytes(n))
                },
                Err(e) => Err(e),
            };
        }
    }
    match parse_u32_range(v, lo, hi) {
        Ok(n) => Ok(FileSize::Bytes(n)),
        Err(e) => Err(e),
    }
}

/// Where the value of a filter starts in `v`, and which comparison it is.
fn filter_start(v: &Vec<char>) -> (r: (usize, u8))
    ensures
        r.0 <= v.len(),
        v@.len() > 0 && v@[0] == '+' ==> r.1 == 2 && v@.skip(r.0 as int) == strip_all_prefix(
            v@,
            seq!['+'],
        ),
        !(v@.len() > 0 && v@[0] == '+') && v@.len() > 0 && v@[0] == '-' ==> r.1 == 0
            && v@.skip(r.0 as int) == strip_all_prefix(v@, seq!['-']),
        !(v@.len() > 0 && (v@[0] == '+' || v@[0] == '-')) ==> r.1 == 1 && r.0 == 0,
{
    let n = v.len();
    proof {
        assert(v@.subrange(0, n as int) =~= v@);
    }
    if n > 0 && (v[0] == '+' || v[0] == '-') {
        let c = v[0];
        let mut p: Vec<char> = Vec::new();
        p.push(c);
        proof {
            assert(p@ =~= seq![c]);
        }
        let lo = strip_all_prefix_range(v, 0, n, &p);
        proof {
            assert(v@.subrange(lo as int, n as int) =~= v@.skip(lo as int));
        }
        (lo, if c == '+' { 2 } else { 0 })
    } else {
        (0, 1)
    }
}

impl FileSize {
    /// The text of this size.
    pub fn to_string(&self) -> (r: String)
        ensures
            r@ == file_size_text(*self),
    {
        let mut v = match self {
            FileSize::Bytes(n) => u32_chars(*n),
            FileSize::Kilobytes(n) => u32_chars(*n),
            FileSize::Megabytes(n) => u32_chars(*n),
            FileSize::Gigabytes(n) => u32_chars(*n),
        };
        match self {
            FileSize::Bytes(_) => {},
            FileSize::Kilobytes(_) => v.push('K'),
            FileSize::Megabytes(_) => v.push('M'),
            FileSize::Gigabytes(_) => v.push('G'),
        }
        string_of(&v)
    }

    /// Reads a size.
    pub fn from_str(s: &str) -> (r: Result<FileSize, IntErrorKind>)
        ensures
            r == file_size_from_text(s@),
    {
        let v = chars_of(s);
        proof {
            assert(v@.subrange(0, v.len() as int) =~= v@);
        }
        parse_file_size_range(&v, 0, v.len())
    }
}

impl Filter<u32> {
    /// The text of this filter.
    pub fn to_string(&self) -> (r: String)
        ensures
            r@ == days_filter_text(*self),
    {
        let mut v: Vec<char> = Vec::new();
        let n = match self {
            Filter::LessThan(n) => {
                v.push('-');
                *n
            },
            Filter::EqualTo(n) => *n,
            Filter::GreaterThan(n) => {
                v.push('+');
                *n
            },
        };
        let d = u32_chars(n);
        crate::text::extend_chars(&mut v, &d);
        proof {
            match self {
                Filter::LessThan(_) => assert(v@ =~= seq!['-'] + decimal(n as nat)),
                Filter::EqualTo(_) => assert(v@ =~= decimal(n as nat)),
                Filter::GreaterThan(_) => assert(v@ =~= seq!['+'] + decimal(n as nat)),
            }
        }
        string_of(&v)
    }

    /// Reads a filter on a number of days.
    pub fn from_str(s: &str) -> (r: Result<Filter<u32>, IntErrorKind>)
        ensures
            r == days_filter_from_text(s@),
    {
        let v = chars_of(s);
        let (lo, kind) = filter_start(&v);
        let n = v.len();
        proof {
            assert(v@.subrange(lo as int, n as int) =~= v@.skip(lo as int));
            assert(v@.skip(0) =~= v@);
        }
        match parse_u32_range(&v, lo, n) {
            Ok(x) => if kind == 2 {
                Ok(Filter::GreaterThan(x))
            } else if kind == 0 {
                Ok(Filter::LessThan(x))
            } else {
                Ok(Filter::EqualTo(x))
            },
            Err(e) => Err(e),
        }
    }
}

impl Filter<FileSize> {
    /// The text of this filter.
    pub fn to_string(&self) -> (r: String)
        ensures
            r@ == size_filter_text(*self),
    {
        let mut v: Vec<char> = Vec::new();
        let s = match self {
            Filter::LessThan(s) => {
                v.push('-');
                *s
            },
            Filter::EqualTo(s) => *s,
            Filter::GreaterThan(s) => {
                v.push('+');
                *s
            },
        };
        let t = s.to_string();
        crate::text::extend_str(&mut v, t.as_str());
        proof {
            match self {
                Filter::LessThan(_) => assert(v@ =~= seq!['-'] + file_size_text(s)),
                Filter::EqualTo(_) => assert(v@ =~= file_size_text(s)),
                Filter::GreaterThan(_) => assert(v@ =~= seq!['+'] + file_size_text(s)),
            }
        }
        string_of(&v)
    }

    /// Reads a filter on a file size.
    pub fn from_str(s: &str) -> (r: Result<Filter<FileSize>, IntErrorKind>)
        ensures
            r == size_filter_from_text(s@),
    {
        let v = chars_of(s);
        let (lo, kind) = filter_start(&v);
        let n = v.len();
        proof {
            assert(v@.subrange(lo as int, n as int) =~= v@.skip(lo as int));
            assert(v@.skip(0) =~= v@);
        }
        match parse_file_size_range(&v, lo, n) {
            Ok(x) => if kind == 2 {
                Ok(Filter::GreaterThan(x))
            } else if kind == 0 {
                Ok(Filter::LessThan(x))
            } else {
                Ok(Filter::EqualTo(x))
            },
            Err(e) => Err(e),
        }
    }
}

proof fn lemma_decimal_ends(n: nat)
    ensures
        decimal(n).len() > 0,
        is_digit(decimal(n)[0]),
        is_digit(decimal(n).last()),
{
    lemma_decimal(n);
    assert(all_digits(decimal(n)));
    assert(is_digit(decimal(n)[0]));
    assert(is_digit(decimal(n)[decimal(n).len() - 1]));
}

proof fn lemma_strip_one(d: Seq<char>, c: char)
    requires
        d.len() > 0,
        d[0] != c,
    ensures
        strip_all_prefix(seq![c] + d, seq![c]) == d,
{
    let s = seq![c] + d;
    assert(s.take(1) =~= seq![c]);
    assert(s.skip(1) =~= d);
    assert(d.take(1) != seq![c]) by {
        assert(d.take(1)[0] == d[0]);
    }
    assert(strip_all_prefix(d, seq![c]) == d);
    assert(strip_all_prefix(s, seq![c]) == strip_all_prefix(s.skip(1), seq![c]));
}

/// Reading the text of a file size gives the size back.
pub proof fn lemma_file_size_round_trip(s: FileSize)
    ensures
        file_size_from_text(file_size_text(s)) == Ok::<FileSize, IntErrorKind>(s),
{
    match s {
        FileSize::Bytes(n) => {
            lemma_decimal_ends(n as nat);
            lemma_u32_from_decimal(n);
            let d = decimal(n as nat);
            assert(d.last() != 'K' && d.last() != 'M' && d.last() != 'G');
        },
        FileSize::Kilobytes(n) => {
            lemma_decimal_ends(n as nat);
            lemma_u32_from_decimal(n);
            let d = decimal(n as nat);
            assert(d.push('K').drop_last() =~= d);
            assert(d.last() != 'K');
            assert(strip_all_suffix(d, 'K') == d);
            assert(strip_all_suffix(d.push('K'), 'K') == d);
        },
        FileSize::Megabytes(n) => {
            lemma_decimal_ends(n as nat);
            lemma_u32_from_decimal(n);
            let d = decimal(n as nat);
            assert(d.push('M').drop_last() =~= d);
            assert(d.last() != 'M');
            assert(strip_all_suffix(d, 'M') == d);
            assert(strip_all_suffix(d.push('M'), 'M') == d);
        },
        FileSize::Gigabytes(n) => {
            lemma_decimal_ends(n as nat);
            lemma_u32_from_decimal(n);
            let d = decimal(n as nat);
            assert(d.push('G').drop_last() =~= d);
            assert(d.last() != 'G');
            assert(strip_all_suffix(d, 'G') == d);
            assert(strip_all_suffix(d.push('G'), 'G') == d);
        },
    }
}

proof fn lemma_file_size_text_start(s: FileSize)
    ensures
        file_size_text(s).len() > 0,
        is_digit(file_size_text(s)[0]),
{
    match s {
        FileSize::Bytes(n) => lemma_decimal_ends(n as nat),
        FileSize::Kilobytes(n) => lemma_decimal_ends(n as nat),
        FileSize::Megabytes(n) => lemma_decimal_ends(n as nat),
        FileSize::Gigabytes(n) => lemma_decimal_ends(n as nat),
    }
}

/// Reading the text of a filter on days gives the filter back.
pub proof fn lemma_days_filter_round_trip(f: Filter<u32>)
    ensures
        days_filter_from_text(days_filter_text(f)) == Ok::<Filter<u32>, IntErrorKind>(f),
{
    match f {
        Filter::LessThan(n) => {
            lemma_decimal_ends(n as nat);
            lemma_u32_from_decimal(n);
            lemma_strip_one(decimal(n as nat), '-');
        },
        Filter::EqualTo(n) => {
            lemma_decimal_ends(n as nat);
            lemma_u32_from_decimal(n);
        },
        Filter::GreaterThan(n) => {
            lemma_decimal_ends(n as nat);
            lemma_u32_from_decimal(n);
            lemma_strip_one(decimal(n as nat), '+');
        },
    }
}

/// Reading the text of a filter on sizes gives the filter back.
pub proof fn lemma_size_filter_round_trip(f: Filter<FileSize>)
    ensures
        size_filter_from_text(size_filter_text(f)) == Ok::<Filter<FileSize>, IntErrorKind>(f),
{
    match f {
        Filter::LessThan(s) => {
            lemma_file_size_text_start(s);
            lemma_file_size_round_trip(s);
            lemma_strip_one(file_size_text(s), '-');
        },
        Filter::EqualTo(s) => {
            lemma_file_size_text_start(s);
            lemma_file_size_round_trip(s);
        },
        Filter::GreaterThan(s) => {
            lemma_file_size_text_start(s);
            lemma_file_size_round_trip(s);
            lemma_strip_one(file_size_text(s), '+');
        },
    }
}

/// Which file systems a listing crosses.
#[derive(Clone, Copy, Debug, PartialEq, Eq, Structural, Hash)]
pub enum FileSystem {
    All,
    Same,
}

impl FileSystem {
    /// The name of this value in requests and answers.
    pub open spec fn text(self) -> Seq<char> {
        match self {
            FileSystem::All => "all"@,
            FileSystem::Same => "same"@,
        }
    }

    /// The name of this value in requests and answers.
    pub fn as_str(&self) -> (r: &'static str)
        ensures
            r@ == self.text(),
    {
        match self {
            FileSystem::All => "all",
            FileSystem::Same => "same",
        }
    }
}

/// The type of the files that a listing returns.
#[derive(Clone, Copy, Debug, PartialEq, Eq, Structural, Hash)]
pub enum FileType {
    CharacterSpecialFile,
    Directory,
    FIFO,
    File,
    Socket,
    SymbolicLink,
}

impl FileType {
    /// The name of this value in requests and answers.
    pub open spec fn text(self) -> Seq<char> {
        match self {
            FileType::CharacterSpecialFile => "c"@,
            FileType::Directory => "d"@,
            FileType::FIFO => "p"@,
            FileType::File => "f"@,
            FileType::Socket => "s"@,
            FileType::SymbolicLink => "l"@,
        }
    }

    /// The name of this value in requests and answers.
    pub fn as_str(&self) -> (r: &'static str)
        ensures
            r@ == self.text(),
    {
        match self {
            FileType::CharacterSpecialFile => "c",
            FileType::Directory => "d",
            FileType::FIFO => "p",
            FileType::File => "f",
            FileType::Socket => "s",
            FileType::SymbolicLink => "l",
        }
    }
}

/// How a listing treats symbolic links.
#[derive(Clone, Copy, Debug, PartialEq, Eq, Structural, Hash)]
pub enum SymLinks {
    Follow,
    Report,
}

impl SymLinks {
    /// The name of this value in requests and answers.
    pub open spec fn text(self) -> Seq<char> {
        match self {
            SymLinks::Follow => "follow"@,
            SymLinks::Report => "report"@,
        }
    }

    /// The name of this value in requests and answers.
    pub fn as_str(&self) -> (r: &'static str)
        ensures
            r@ == self.text(),
    {
        match self {
            SymLinks::Follow => "follow",
            SymLinks::Report => "report",
        }
    }
}

/// A request that lists the files at a path.
#[derive(Clone, Debug)]
pub struct FilesBuilder {
    pub base_url: String,
    pub path: String,
    pub lstat: Option<bool>,
    pub group: Option<String>,
    pub modified_days: Option<Filter<u32>>,
    pub name: Option<String>,
    pub size: Option<Filter<FileSize>>,
    pub permissions: Option<String>,
    pub file_type: Option<FileType>,
    pub user: Option<String>,
    pub depth: Option<i32>,
    pub limit: Option<i32>,
    pub file_system: Option<FileSystem>,
    pub symlinks: Option<SymLinks>,
}

impl FilesBuilder {
    /// The builder as it is first made.
    pub open spec fn is_new(self, base_url: Seq<char>, path: Seq<char>) -> bool {
        &&& self.base_url@ == base_url
        &&& self.path@ == path
        &&& self.lstat is None
        &&& self.group is None
        &&& self.modified_days is None
        &&& self.name is None
        &&& self.size is None
        &&& self.permissions is None
        &&& self.file_type is None
        &&& self.user is None
        &&& self.depth is None
        &&& self.limit is None
        &&& self.file_system is None
        &&& self.symlinks is None
    }

    /// A builder that lists the files at `path`.
    pub fn new(base_url: String, path: &str) -> (r: FilesBuilder)
        ensures
            r.is_new(base_url@, path@),
    {
        FilesBuilder {
            base_url,
            path: String::from_str(path),
            lstat: None,
            group: None,
            modified_days: None,
            name: None,
            size: None,
            permissions: None,
            file_type: None,
            user: None,
            depth: None,
            limit: None,
            file_system: None,
            symlinks: None,
        }
    }

    /// Describes a symbolic link itself rather than what it points to.
    pub fn lstat(self, value: bool) -> (r: FilesBuilder)
        ensures
            r == (FilesBuilder { lstat: Some(value), ..self }),
    {
        FilesBuilder { lstat: Some(value), ..self }
    }

    /// Lists only the files of a group.
    pub fn group(self, value: &str) -> (r: FilesBuilder)
        ensures
            r.group matches Some(s) && s@ == value@,
            r == (FilesBuilder { group: r.group, ..self }),
    {
        FilesBuilder { group: Some(String::from_str(value)), ..self }
    }

    /// Lists only the files changed within a number of days.
    pub fn modified_days(self, value: Filter<u32>) -> (r: FilesBuilder)
        ensures
            r == (FilesBuilder { modified_days: Some(value), ..self }),
    {
        FilesBuilder { modified_days: Some(value), ..self }
    }

    /// Lists only the files whose names match a pattern.
    pub fn name(self, value: &str) -> (r: FilesBuilder)
        ensures
            r.name matches Some(s) && s@ == value@,
            r == (FilesBuilder { name: r.name, ..self }),
    {
        FilesBuilder { name: Some(String::from_str(value)), ..self }
    }

    /// Lists only the files of a size.
    pub fn size(self, value: Filter<FileSize>) -> (r: FilesBuilder)
        ensures
            r == (FilesBuilder { size: Some(value), ..self }),
    {
        FilesBuilder { size: Some(value), ..self }
    }

    /// Lists only the files with these permission bits.
    pub fn permissions(self, value: &str) -> (r: FilesBuilder)
        ensures
            r.permissions matches Some(s) && s@ == value@,
            r == (FilesBuilder { permissions: r.permissions, ..self }),
    {
        FilesBuilder { permissions: Some(String::from_str(value)), ..self }
    }

    /// Lists only the files of a type.
    pub fn file_type(self, value: FileType) -> (r: FilesBuilder)
        ensures
            r == (FilesBuilder { file_type: Some(value), ..self }),
    {
        FilesBuilder { file_type: Some(value), ..self }
    }

    /// Lists only the files of a user.
    pub fn user(self, value: &str) -> (r: FilesBuilder)
        ensures
            r.user matches Some(s) && s@ == value@,
            r == (FilesBuilder { user: r.user, ..self }),
    {
        FilesBuilder { user: Some(String::from_str(value)), ..self }
    }

    /// Sets how deep the listing goes.
    pub fn depth(self, value: i32) -> (r: FilesBuilder)
        ensures
            r == (FilesBuilder { depth: Some(value), ..self }),
    {
        FilesBuilder { depth: Some(value), ..self }
    }

    /// Sets how many files the listing returns at most.
    pub fn limit(self, value: i32) -> (r: FilesBuilder)
        ensures
            r == (FilesBuilder { limit: Some(value), ..self }),
    {
        FilesBuilder { limit: Some(value), ..self }
    }

    /// Sets which file systems the listing crosses.
    pub fn file_system(self, value: FileSystem) -> (r: FilesBuilder)
        ensures
            r == (FilesBuilder { file_system: Some(value), ..self }),
    {
        FilesBuilder { file_system: Some(value), ..self }
    }

    /// Sets how symbolic links are treated.
    pub fn symlinks(self, value: SymLinks) -> (r: FilesBuilder)
        ensures
            r == (FilesBuilder { symlinks: Some(value), ..self }),
    {
        FilesBuilder { symlinks: Some(value), ..self }
    }

    /// The request that this builder describes.
    pub open spec fn spec_request(&self) -> RequestView {
        request_to(Method::Get, url_of(self.base_url@, "/zosmf/restfiles/fs"@)).with_query(
            "path"@,
            self.path@,
        ).with_header_if(self.lstat == Some(true), "X-IBM-Lstat"@, "true"@).with_query_opt(
            "group"@,
            opt_view(self.group),
        ).with_query_opt(
            "mtime"@,
            match self.modified_days {
                Some(f) => Some(days_filter_text(f)),
                None => None,
            },
        ).with_query_opt("name"@, opt_view(self.name)).with_query_opt(
            "size"@,
            match self.size {
                Some(f) => Some(size_filter_text(f)),
                None => None,
            },
        ).with_query_opt("perm"@, opt_view(self.permissions)).with_query_opt(
            "type"@,
            match self.file_type {
                Some(t) => Some(t.text()),
                None => None,
            },
        ).with_query_opt("user"@, opt_view(self.user)).with_query_opt(
            "depth"@,
            opt_number(self.depth),
        ).with_query_opt("limit"@, opt_number(self.limit)).with_query_opt(
            "filesys"@,
            match self.file_system {
                Some(f) => Some(f.text()),
                None => None,
            },
        ).with_query_opt(
            "symlinks"@,
            match self.symlinks {
                Some(s) => Some(s.text()),
                None => None,
            },
        )
    }

    /// The request: `GET` on the files resource with the path and the
    /// filters as query parameters, and `X-IBM-Lstat: true` when asked.
    pub fn get_request(&self) -> (r: Request)
        ensures
            r@ == self.spec_request(),
    {
        let path = chars_of("/zosmf/restfiles/fs");
        let mut r = Request::new(Method::Get, self.base_url.as_str(), &path);
        r.add_query("path", self.path.clone());
        r.add_header_if(self.lstat == Some(true), "X-IBM-Lstat", "true");
        r.add_query_opt("group", &self.group);
        let mtime = match &self.modified_days {
            Some(f) => Some(f.to_string()),
            None => None,
        };
        r.add_query_opt("mtime", &mtime);
        r.add_query_opt("name", &self.name);
        let size = match &self.size {
            Some(f) => Some(f.to_string()),
            None => None,
        };
        r.add_query_opt("size", &size);
        r.add_query_opt("perm", &self.permissions);
        let file_type = match self.file_type {
            Some(t) => Some(String::from_str(t.as_str())),
            None => None,
        };
        r.add_query_opt("type", &file_type);
        r.add_query_opt("user", &self.user);
        r.add_query_opt("depth", &opt_number_string(self.depth));
        r.add_query_opt("limit", &opt_number_string(self.limit));
        let file_system = match self.file_system {
            Some(f) => Some(String::from_str(f.as_str())),
            None => None,
        };
        r.add_query_opt("filesys", &file_system);
        let symlinks = match self.symlinks {
            Some(s) => Some(String::from_str(s.as_str())),
            None => None,
        };
        r.add_query_opt("symlinks", &symlinks);
        r
    }
}

} // verus!
