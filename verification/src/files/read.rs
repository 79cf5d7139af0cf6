//! Reading a file.

use vstd::prelude::*;

use crate::error::{Error, ErrorView};
use crate::files::{fs_path, write_fs_path, FileDataType};
use crate::jobs::list::{opt_number, opt_number_string};
use crate::request::{opt_str_view, opt_view, request_to, url_of, Method, Request, RequestView};
use crate::restfiles::{etag_of, get_etag, get_transaction_id, header_view, transaction_id_of};
use crate::text::concat;

verus! {

/// The contents of a file, with its etag and the transaction id of the
/// answer. The data is text (`String`), bytes (`Vec<u8>`), or either of them
/// as an option, absent when the file had not changed.
#[derive(Clone, Debug, PartialEq, Eq, Hash)]
pub struct FileRead<T> {
    pub data: T,
    pub etag: Option<String>,
    pub transaction_id: String,
}

/// Reading the headers of an answer to a read: the etag, then the
/// transaction id.
pub open spec fn read_headers(etag: Option<Seq<u8>>, transaction_id: Option<Seq<u8>>) -> Result<
    (Option<Seq<char>>, Seq<char>),
    ErrorView,
> {
    match etag_of(etag) {
        Err(e) => Err(e),
        Ok(t) => match transaction_id_of(transaction_id) {
            Err(e) => Err(e),
            Ok(id) => Ok((t, id)),
        },
    }
}

/// An answer with status 304 (not modified) carries no data.
pub open spec fn carries_data(status: u16) -> bool {
    status != 304
}

impl<T> FileRead<T> {
    /// Reads the etag and transaction id of an answer and puts them with the
    /// data.
    pub fn from_headers(
        data: T,
        etag: &Option<Vec<u8>>,
        transaction_id: &Option<Vec<u8>>,
    ) -> (r: Result<
        FileRead<T>,
        Error,
    >)
        ensures
            match r {
                Ok(v) => v.data == data && read_headers(header_view(*etag), header_view(*transaction_id))
                    == Ok::<(Option<Seq<char>>, Seq<char>), ErrorView>(
                    (opt_view(v.etag), v.transaction_id@),
                ),
                Err(e) => read_headers(header_view(*etag), header_view(*transaction_id)) == Err::<
                    (Option<Seq<char>>, Seq<char>),
                    ErrorView,
                >(e@),
            },
    {
        let etag = match get_etag(etag) {
            Ok(t) => t,
            Err(e) => return Err(e),
        };
        let transaction_id = match get_transaction_id(transaction_id) {
            Ok(t) => t,
            Err(e) => return Err(e),
        };
        Ok(FileRead { data, etag, transaction_id })
    }

    /// The etag of the file, if the answer had one.
    pub fn etag(&self) -> (r: Option<&str>)
        ensures
            opt_str_view(r) == opt_view(self.etag),
    {
        match &self.etag {
            Some(s) => Some(s.as_str()),
            None => None,
        }
    }

    /// The transaction id.
    pub fn transaction_id(&self) -> (r: &str)
        ensures
            r@ == self.transaction_id@,
    {
        self.transaction_id.as_str()
    }
}

/// Tells whether an answer with this status carries the file's data.
pub fn answer_carries_data(status: u16) -> (r: bool)
    ensures
        r == carries_data(status),
{
    status != 304
}

impl FileRead<String> {
    /// The text of the file.
    pub fn data(&self) -> (r: &str)
        ensures
            r@ == self.data@,
    {
        self.data.as_str()
    }
}

impl FileRead<Vec<u8>> {
    /// The bytes of the file.
    pub fn data(&self) -> (r: &Vec<u8>)
        ensures
            r@ == self.data@,
    {
        &self.data
    }
}

impl FileRead<Option<String>> {
    /// The text of the file, unless it had not changed.
    pub fn data(&self) -> (r: Option<&str>)
        ensures
            opt_str_view(r) == opt_view(self.data),
    {
        match &self.data {
            Some(s) => Some(s.as_str()),
            None => None,
        }
    }
}

impl FileRead<Option<Vec<u8>>> {
    /// The bytes of the file, unless it had not changed.
    pub fn data(&self) -> (r: Option<&Vec<u8>>)
        ensures
            r == match &self.data {
                Some(b) => Some(b),
                None => None::<&Vec<u8>>,
            },
    {
        match &self.data {
            Some(b) => Some(b),
            None => None,
        }
    }
}

/// A request that reads a file.
#[derive(Clone, Debug)]
pub struct FileReadBuilder {
    pub base_url: String,
    pub path: String,
    pub search: Option<String>,
    pub regex_search: Option<String>,
    pub search_case_sensitive: Option<bool>,
    pub search_max_return: Option<i32>,
    pub data_type: Option<FileDataType>,
    pub encoding: Option<String>,
    pub etag: Option<String>,
}

/// The `X-IBM-Data-Type` header of a read, if it has one: the data type and
/// the encoding, when they are given (text, when only an encoding is).
pub open spec fn read_data_type(
    data_type: Option<FileDataType>,
    encoding: Option<Seq<char>>,
) -> Option<Seq<char>> {
    match (data_type, encoding) {
        (Some(d), Some(e)) => Some(d.text() + ";fileEncoding="@ + e),
        (Some(d), None) => Some(d.text()),
        (None, Some(e)) => Some("text;fileEncoding="@ + e),
        (None, None) => None,
    }
}

impl FileReadBuilder {
    /// The builder as it is first made.
    pub open spec fn is_new(self, base_url: Seq<char>, path: Seq<char>) -> bool {
        &&& self.base_url@ == base_url
        &&& self.path@ == path
        &&& self.search is None
        &&& self.regex_search is None
        &&& self.search_case_sensitive is None
        &&& self.search_max_return is None
        &&& self.data_type is None
        &&& self.encoding is None
        &&& self.etag is None
    }

    /// A builder that reads the file at `path`.
    pub fn new(base_url: String, path: &str) -> (r: FileReadBuilder)
        ensures
            r.is_new(base_url@, path@),
    {
        FileReadBuilder {
            base_url,
            path: String::from_str(path),
            search: None,
            regex_search: None,
            search_case_sensitive: None,
            search_max_return: None,
            data_type: None,
            encoding: None,
            etag: None,
        }
    }

    /// Returns only the lines around the first match of `value`.
    pub fn search(self, value: &str) -> (r: FileReadBuilder)
        ensures
            r.search matches Some(s) && s@ == value@,
            r == (FileReadBuilder { search: r.search, ..self }),
    {
        FileReadBuilder { search: Some(String::from_str(value)), ..self }
    }

    /// Returns only the lines around the first match of the regular
    /// expression `value`.
    pub fn regex_search(self, value: &str) -> (r: FileReadBuilder)
        ensures
            r.regex_search matches Some(s) && s@ == value@,
            r == (FileReadBuilder { regex_search: r.regex_search, ..self }),
    {
        FileReadBuilder { regex_search: Some(String::from_str(value)), ..self }
    }

    /// Makes the search case sensitive.
    pub fn search_case_sensitive(self, value: bool) -> (r: FileReadBuilder)
        ensures
            r == (FileReadBuilder { search_case_sensitive: Some(value), ..self }),
    {
        FileReadBuilder { search_case_sensitive: Some(value), ..self }
    }

    /// Limits the number of lines that a search returns.
    pub fn search_max_return(self, value: i32) -> (r: FileReadBuilder)
        ensures
            r == (FileReadBuilder { search_max_return: Some(value), ..self }),
    {
        FileReadBuilder { search_max_return: Some(value), ..self }
    }

    /// Sets the encoding of the text.
    pub fn encoding(self, value: &str) -> (r: FileReadBuilder)
        ensures
            r.encoding matches Some(s) && s@ == value@,
            r == (FileReadBuilder { encoding: r.encoding, ..self }),
    {
        FileReadBuilder { encoding: Some(String::from_str(value)), ..self }
    }

    /// Reads the file as bytes.
    pub fn binary(self) -> (r: FileReadBuilder)
        ensures
            r == (FileReadBuilder { data_type: Some(FileDataType::Binary), ..self }),
    {
        FileReadBuilder { data_type: Some(FileDataType::Binary), ..self }
    }

    /// Reads the file as text.
    pub fn text(self) -> (r: FileReadBuilder)
        ensures
            r == (FileReadBuilder { data_type: Some(FileDataType::Text), ..self }),
    {
        FileReadBuilder { data_type: Some(FileDataType::Text), ..self }
    }

    /// Reads the file only if its etag is no longer `etag`.
    pub fn if_none_match(self, etag: &str) -> (r: FileReadBuilder)
        ensures
            r.etag matches Some(s) && s@ == etag@,
            r == (FileReadBuilder { etag: r.etag, ..self }),
    {
        FileReadBuilder { etag: Some(String::from_str(etag)), ..self }
    }

    /// The request that this builder describes.
    pub open spec fn spec_request(&self) -> RequestView {
        request_to(Method::Get, url_of(self.base_url@, fs_path(self.path@))).with_query_opt(
            "search"@,
            opt_view(self.search),
        ).with_query_opt("research"@, opt_view(self.regex_search)).with_query_if(
            self.search_case_sensitive == Some(true),
            "insensitive"@,
            "false"@,
        ).with_query_opt("maxreturnsize"@, opt_number(self.search_max_return)).with_header_opt(
            "X-IBM-Data-Type"@,
            read_data_type(self.data_type, opt_view(self.encoding)),
        ).with_header_opt("If-None-Match"@, opt_view(self.etag))
    }

    /// The request: `GET` on the file, with the search parameters, the data
    /// type header and `If-None-Match` when an etag is given.
    pub fn get_request(&self) -> (r: Request)
        ensures
            r@ == self.spec_request(),
    {
        let path = write_fs_path(self.path.as_str());
        let mut r = Request::new(Method::Get, self.base_url.as_str(), &path);
        r.add_query_opt("search", &self.search);
        r.add_query_opt("research", &self.regex_search);
        r.add_query_if(self.search_case_sensitive == Some(true), "insensitive", "false");
        r.add_query_opt("maxreturnsize", &opt_number_string(self.search_max_return));
        let h = match (self.data_type, &self.encoding) {
            (Some(d), Some(e)) => {
                let a = concat(d.as_str(), ";fileEncoding=");
                Some(concat(a.as_str(), e.as_str()))
            },
            (Some(d), None) => Some(String::from_str(d.as_str())),
            (None, Some(e)) => Some(concat("text;fileEncoding=", e.as_str())),
            (None, None) => None,
        };
        r.add_header_opt("X-IBM-Data-Type", &h);
        r.add_header_opt("If-None-Match", &self.etag);
        r
    }
}

} // verus!
