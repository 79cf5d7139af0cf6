//! Reading a spool file of a job.

use vstd::prelude::*;

use crate::jobs::JobIdentifier;
use crate::jobs::feedback::{job_path, write_job_path};
use crate::jobs::list::{opt_number, opt_number_string};
use crate::error::{Error, ErrorView};
use crate::request::{
    opt_view, request_result, request_to, url_of, BodyView, Method, Request, RequestView,
};
use crate::text::{extend_str, i32_chars, signed_decimal, string_of};
use crate::utils::record_range_text;
pub use crate::utils::RecordRange;

verus! {

/// A spool file of a job: its JCL, or a file by number.
#[derive(Clone, Copy, Debug, PartialEq, Eq, Structural, Hash)]
pub enum JobFileId {
    Jcl,
    Id(i32),
}

/// The text of a spool file id: `JCL` or the number.
pub open spec fn job_file_id_text(id: JobFileId) -> Seq<char> {
    match id {
        JobFileId::Jcl => "JCL"@,
        JobFileId::Id(n) => signed_decimal(n as int),
    }
}

impl JobFileId {
    /// The spool file with number `value`.
    pub fn from(value: i32) -> (r: JobFileId)
        ensures
            r == JobFileId::Id(value),
    {
        JobFileId::Id(value)
    }

    /// The text of this id, as its `Display` writes it.
    pub fn to_string(&self) -> (r: String)
        ensures
            r@ == job_file_id_text(*self),
    {
        match self {
            JobFileId::Jcl => String::from_str("JCL"),
            JobFileId::Id(n) => string_of(&i32_chars(*n)),
        }
    }
}

/// How the records of a spool file are sent.
#[derive(Clone, Copy, Debug, PartialEq, Eq, Structural, Hash)]
pub enum DataType {
    Binary,
    Record,
    Text,
}

/// The name of a data type.
pub open spec fn data_type_text(d: DataType) -> Seq<char> {
    match d {
        DataType::Binary => "binary"@,
        DataType::Record => "record"@,
        DataType::Text => "text"@,
    }
}

/// The name of a data type.
pub fn data_type_str(d: DataType) -> (r: &'static str)
    ensures
        r@ == data_type_text(d),
{
    match d {
        DataType::Binary => "binary",
        DataType::Record => "record",
        DataType::Text => "text",
    }
}

/// A request that reads the records of a spool file.
#[derive(Clone, Debug)]
pub struct JobFileReadBuilder {
    pub base_url: String,
    pub subsystem: Option<String>,
    pub identifier: JobIdentifier,
    pub id: JobFileId,
    pub record_range: Option<RecordRange>,
    pub data_type: Option<DataType>,
    pub encoding: Option<String>,
    pub search: Option<String>,
    pub search_regex: Option<String>,
    pub search_case_sensitive: Option<bool>,
    pub search_max_return: Option<i32>,
}

/// The path of a spool file's records.
pub open spec fn records_path(
    subsystem: Option<Seq<char>>,
    identifier: crate::jobs::JobIdentifierView,
    id: JobFileId,
) -> Seq<char> {
    job_path(subsystem, identifier) + "/files/"@ + job_file_id_text(id) + "/records"@
}

impl JobFileReadBuilder {
    /// The builder as it is first made.
    pub open spec fn is_new(
        self,
        base_url: Seq<char>,
        identifier: JobIdentifier,
        id: JobFileId,
    ) -> bool {
        &&& self.base_url@ == base_url
        &&& self.identifier == identifier
        &&& self.id == id
        &&& self.subsystem is None
        &&& self.record_range is None
        &&& self.data_type is None
        &&& self.encoding is None
        &&& self.search is None
        &&& self.search_regex is None
        &&& self.search_case_sensitive is None
        &&& self.search_max_return is None
    }

    /// A builder that reads the spool file `id` of the job `identifier`.
    pub fn new(
        base_url: String,
        identifier: JobIdentifier,
        id: JobFileId,
    ) -> (r: JobFileReadBuilder)
        ensures
            r.is_new(base_url@, identifier, id),
    {
        JobFileReadBuilder {
            base_url,
            subsystem: None,
            identifier,
            id,
            record_range: None,
            data_type: None,
            encoding: None,
            search: None,
            search_regex: None,
            search_case_sensitive: None,
            search_max_return: None,
        }
    }

    /// Names the subsystem of the job.
    pub fn subsystem(self, value: &str) -> (r: JobFileReadBuilder)
        ensures
            r.subsystem matches Some(s) && s@ == value@,
            r == (JobFileReadBuilder { subsystem: r.subsystem, ..self }),
    {
        JobFileReadBuilder { subsystem: Some(String::from_str(value)), ..self }
    }

    /// Reads only a range of records.
    pub fn record_range(self, value: RecordRange) -> (r: JobFileReadBuilder)
        ensures
            r == (JobFileReadBuilder { record_range: Some(value), ..self }),
    {
        JobFileReadBuilder { record_range: Some(value), ..self }
    }

    /// Names the encoding of the file.
    pub fn encoding(self, value: &str) -> (r: JobFileReadBuilder)
        ensures
            r.encoding matches Some(s) && s@ == value@,
            r == (JobFileReadBuilder { encoding: r.encoding, ..self }),
    {
        JobFileReadBuilder { encoding: Some(String::from_str(value)), ..self }
    }

    /// Searches the records for a string.
    pub fn search(self, value: &str) -> (r: JobFileReadBuilder)
        ensures
            r.search matches Some(s) && s@ == value@,
            r == (JobFileReadBuilder { search: r.search, ..self }),
    {
        JobFileReadBuilder { search: Some(String::from_str(value)), ..self }
    }

    /// Searches the records for a regular expression.
    pub fn search_regex(self, value: &str) -> (r: JobFileReadBuilder)
        ensures
            r.search_regex matches Some(s) && s@ == value@,
            r == (JobFileReadBuilder { search_regex: r.search_regex, ..self }),
    {
        JobFileReadBuilder { search_regex: Some(String::from_str(value)), ..self }
    }

    /// Makes the search case sensitive, or not.
    pub fn search_case_sensitive(self, value: bool) -> (r: JobFileReadBuilder)
        ensures
            r == (JobFileReadBuilder { search_case_sensitive: Some(value), ..self }),
    {
        JobFileReadBuilder { search_case_sensitive: Some(value), ..self }
    }

    /// Returns at most this many records of the search.
    pub fn search_max_return(self, value: i32) -> (r: JobFileReadBuilder)
        ensures
            r == (JobFileReadBuilder { search_max_return: Some(value), ..self }),
    {
        JobFileReadBuilder { search_max_return: Some(value), ..self }
    }

    /// Reads the file as binary data.
    pub fn binary(self) -> (r: JobFileReadBuilder)
        ensures
            r == (JobFileReadBuilder { data_type: Some(DataType::Binary), ..self }),
    {
        JobFileReadBuilder { data_type: Some(DataType::Binary), ..self }
    }

    /// Reads the file as records.
    pub fn record(self) -> (r: JobFileReadBuilder)
        ensures
            r == (JobFileReadBuilder { data_type: Some(DataType::Record), ..self }),
    {
        JobFileReadBuilder { data_type: Some(DataType::Record), ..self }
    }

    /// Reads the file as text.
    pub fn text(self) -> (r: JobFileReadBuilder)
        ensures
            r == (JobFileReadBuilder { data_type: Some(DataType::Text), ..self }),
    {
        JobFileReadBuilder { data_type: Some(DataType::Text), ..self }
    }

    /// The request that this builder describes. A case-sensitive search
    /// hands on its parameter as two loose texts in place of a name and a
    /// value, which cannot be written into a URL, so no request is made.
    pub open spec fn spec_request(&self) -> Result<RequestView, ErrorView> {
        if self.search_case_sensitive == Some(true) {
            Err(ErrorView::Query("unsupported pair"@))
        } else {
            Ok(self.spec_records_request())
        }
    }

    /// The request on the records of the file, with its header and query
    /// parameters.
    pub open spec fn spec_records_request(&self) -> RequestView {
        request_to(
            Method::Get,
            url_of(self.base_url@, records_path(opt_view(self.subsystem), self.identifier@, self.id)),
        )
            .with_header_opt(
                "X-IBM-Record-Range"@,
                match self.record_range {
                    Some(r) => Some(record_range_text(r@)),
                    None => None,
                },
            )
            .with_query_opt(
                "mode"@,
                match self.data_type {
                    Some(d) => Some(data_type_text(d)),
                    None => None,
                },
            )
            .with_query_opt("fileEncoding"@, opt_view(self.encoding))
            .with_query_opt("search"@, opt_view(self.search))
            .with_query_opt("research"@, opt_view(self.search_regex))
            .with_query_opt("maxreturnsize"@, opt_number(self.search_max_return))
    }

    /// The request, `GET` on the records of the file, or the error that
    /// tells that a case-sensitive search cannot be asked for.
    pub fn get_request(&self) -> (r: Result<Request, Error>)
        ensures
            request_result(r) == self.spec_request(),
    {
        if self.search_case_sensitive == Some(true) {
            return Err(Error::Query(String::from_str("unsupported pair")));
        }
        let mut path = write_job_path(&self.subsystem, &self.identifier);
        extend_str(&mut path, "/files/");
        let id = self.id.to_string();
        extend_str(&mut path, id.as_str());
        extend_str(&mut path, "/records");
        proof {
            assert(path@ =~= records_path(opt_view(self.subsystem), self.identifier@, self.id));
        }
        let mut r = Request::new(Method::Get, self.base_url.as_str(), &path);
        match &self.record_range {
            Some(range) => r.add_header("X-IBM-Record-Range", range.to_header_value()),
            None => {},
        }
        match self.data_type {
            Some(d) => r.add_query("mode", String::from_str(data_type_str(d))),
            None => {},
        }
        r.add_query_opt("fileEncoding", &self.encoding);
        r.add_query_opt("search", &self.search);
        r.add_query_opt("research", &self.search_regex);
        r.add_query_opt("maxreturnsize", &opt_number_string(self.search_max_return));
        Ok(r)
    }
}

/// The `mode` query parameter of a data type, if one was chosen.
pub open spec fn mode_query(data_type: Option<DataType>) -> Seq<(Seq<char>, Seq<char>)> {
    match data_type {
        Some(d) => seq![("mode"@, data_type_text(d))],
        None => Seq::empty(),
    }
}

impl JobFileReadBuilder {
    /// The query parameters that follow `mode`: the encoding, the search,
    /// the regular expression and the most records to return, each where it
    /// was set.
    pub open spec fn later_query(&self) -> Seq<(Seq<char>, Seq<char>)> {
        request_to(Method::Get, Seq::empty())
            .with_query_opt("fileEncoding"@, opt_view(self.encoding))
            .with_query_opt("search"@, opt_view(self.search))
            .with_query_opt("research"@, opt_view(self.search_regex))
            .with_query_opt("maxreturnsize"@, opt_number(self.search_max_return))
            .query
    }
}

/// The query of the records request is the `mode` parameter, where a data
/// type was chosen, followed by the later parameters; nothing else of the
/// request depends on the data type.
pub proof fn records_query_parts(b: JobFileReadBuilder)
    ensures
        b.spec_records_request().query == mode_query(b.data_type) + b.later_query(),
        b.spec_records_request().method == Method::Get,
        b.spec_records_request().url == url_of(
            b.base_url@,
            records_path(opt_view(b.subsystem), b.identifier@, b.id),
        ),
        b.spec_records_request().headers == request_to(Method::Get, Seq::empty()).with_header_opt(
            "X-IBM-Record-Range"@,
            match b.record_range {
                Some(r) => Some(record_range_text(r@)),
                None => None,
            },
        ).headers,
        b.spec_records_request().body == BodyView::Empty,
{
    assert(b.spec_records_request().query =~= mode_query(b.data_type) + b.later_query());
}

/// Choosing how the records are sent (`record()`, `binary()` or `text()`)
/// keeps the rest of the request: the method, the URL, the record range
/// header, the body and every query parameter but `mode` stay as they were,
/// and `mode` names the new data type in place of any earlier one. Whether
/// a request can be made at all does not depend on the data type.
pub proof fn data_type_keeps_request(b: JobFileReadBuilder, d: DataType)
    ensures
        ({
            let c = JobFileReadBuilder { data_type: Some(d), ..b };
            &&& c.spec_request() is Err <==> b.spec_request() is Err
            &&& c.spec_request() is Err ==> c.spec_request() == b.spec_request()
            &&& c.spec_records_request().method == b.spec_records_request().method
            &&& c.spec_records_request().url == b.spec_records_request().url
            &&& c.spec_records_request().headers == b.spec_records_request().headers
            &&& c.spec_records_request().body == b.spec_records_request().body
            &&& b.spec_records_request().query == mode_query(b.data_type) + b.later_query()
            &&& c.spec_records_request().query == seq![("mode"@, data_type_text(d))]
                + b.later_query()
        }),
{
    let c = JobFileReadBuilder { data_type: Some(d), ..b };
    records_query_parts(b);
    records_query_parts(c);
    assert(c.later_query() == b.later_query());
}

/// The records of a file of a job's output: text (`String`) or bytes
/// (`Vec<u8>`).
#[derive(Clone, Debug, PartialEq, Eq, Hash)]
pub struct JobFileRead<T> {
    pub data: T,
}

impl JobFileRead<String> {
    /// The records read as text: the whole body of the answer, unaltered.
    pub fn from_text(body: String) -> (r: JobFileRead<String>)
        ensures
            r.data@ == body@,
    {
        JobFileRead { data: body }
    }

    /// The text of the file.
    pub fn data(&self) -> (r: &str)
        ensures
            r@ == self.data@,
    {
        self.data.as_str()
    }
}

impl JobFileRead<Vec<u8>> {
    /// The records read as bytes: the whole body of the answer, unaltered.
    pub fn from_bytes(body: Vec<u8>) -> (r: JobFileRead<Vec<u8>>)
        ensures
            r.data@ == body@,
    {
        JobFileRead { data: body }
    }

    /// The bytes of the file.
    pub fn data(&self) -> (r: &Vec<u8>)
        ensures
            r@ == self.data@,
    {
        &self.data
    }
}

} // verus!
