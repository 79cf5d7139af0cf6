//! Writing a file.

use vstd::prelude::*;

use crate::error::{Error, ErrorView};
use crate::files::{fs_path, write_fs_path};
use crate::request::{
    lemma_header_opt_values, lemma_header_values, opt_values, opt_view, request_to, url_of,
    values_named, Body, BodyView, Method, Request, RequestView,
};
use crate::restfiles::{etag_of, get_etag, get_transaction_id, header_view, transaction_id_of};
use crate::text::concat;

verus! {

/// The answer to a write: the new etag of the file and the transaction id.
#[derive(Clone, Debug, PartialEq, Eq, Hash)]
pub struct Write {
    pub etag: String,
    pub transaction_id: String,
}

/// Reading the answer to a write: the etag, which must be there, then the
/// transaction id.
pub open spec fn write_from_headers(
    etag: Option<Seq<u8>>,
    transaction_id: Option<Seq<u8>>,
) -> Result<
    (Seq<char>, Seq<char>),
    ErrorView,
> {
    match etag_of(etag) {
        Err(e) => Err(e),
        Ok(None) => Err(ErrorView::Etag),
        Ok(Some(t)) => match transaction_id_of(transaction_id) {
            Err(e) => Err(e),
            Ok(id) => Ok((t, id)),
        },
    }
}

impl Write {
    /// Reads the answer to a write from its `Etag` and `X-IBM-Txid` headers.
    pub fn from_headers(
        etag: &Option<Vec<u8>>,
        transaction_id: &Option<Vec<u8>>,
    ) -> (r: Result<Write, Error>)
        ensures
            match r {
                Ok(w) => write_from_headers(header_view(*etag), header_view(*transaction_id)) == Ok::<
                    (Seq<char>, Seq<char>),
                    ErrorView,
                >((w.etag@, w.transaction_id@)),
                Err(e) => write_from_headers(header_view(*etag), header_view(*transaction_id)) == Err::<
                    (Seq<char>, Seq<char>),
                    ErrorView,
                >(e@),
            },
    {
        let etag = match get_etag(etag) {
            Ok(Some(t)) => t,
            Ok(None) => return Err(Error::Etag),
            Err(e) => return Err(e),
        };
        let transaction_id = match get_transaction_id(transaction_id) {
            Ok(t) => t,
            Err(e) => return Err(e),
        };
        Ok(Write { etag, transaction_id })
    }

    /// The new etag of the file.
    pub fn etag(&self) -> (r: &str)
        ensures
            r@ == self.etag@,
    {
        self.etag.as_str()
    }

    /// The transaction id.
    pub fn transaction_id(&self) -> (r: &str)
        ensures
            r@ == self.transaction_id@,
    {
        self.transaction_id.as_str()
    }
}

/// The data that a write sends.
#[derive(Clone, Debug)]
pub enum WriteData {
    Binary(Vec<u8>),
    Text(String),
}

/// A request that writes a file.
#[derive(Clone, Debug)]
pub struct WriteBuilder {
    pub base_url: String,
    pub path: String,
    pub crlf_newlines: Option<bool>,
    pub data: Option<WriteData>,
    pub encoding: Option<String>,
    pub if_match: Option<String>,
}

/// The `X-IBM-Data-Type` header of a text write, if it has one: the encoding
/// and the line ends, when they are given.
pub open spec fn text_data_type(
    encoding: Option<Seq<char>>,
    crlf_newlines: Option<bool>,
) -> Option<Seq<char>> {
    match (encoding, crlf_newlines) {
        (Some(e), Some(true)) => Some("text;fileEncoding="@ + e + ";crlf=true"@),
        (Some(e), _) => Some("text;fileEncoding="@ + e),
        (None, Some(true)) => Some("text;crlf=true"@),
        _ => None,
    }
}

impl WriteBuilder {
    /// The builder as it is first made.
    pub open spec fn is_new(self, base_url: Seq<char>, path: Seq<char>) -> bool {
        &&& self.base_url@ == base_url
        &&& self.path@ == path
        &&& self.crlf_newlines is None
        &&& self.data is None
        &&& self.encoding is None
        &&& self.if_match is None
    }

    /// A builder that writes the file at `path`.
    pub fn new(base_url: String, path: &str) -> (r: WriteBuilder)
        ensures
            r.is_new(base_url@, path@),
    {
        WriteBuilder {
            base_url,
            path: String::from_str(path),
            crlf_newlines: None,
            data: None,
            encoding: None,
            if_match: None,
        }
    }

    /// Writes these bytes.
    pub fn binary(self, data: Vec<u8>) -> (r: WriteBuilder)
        ensures
            r == (WriteBuilder { data: Some(WriteData::Binary(data)), ..self }),
    {
        WriteBuilder { data: Some(WriteData::Binary(data)), ..self }
    }

    /// Writes this text.
    pub fn text(self, data: &str) -> (r: WriteBuilder)
        ensures
            r.data matches Some(WriteData::Text(t)) && t@ == data@,
            r == (WriteBuilder { data: r.data, ..self }),
    {
        WriteBuilder { data: Some(WriteData::Text(String::from_str(data))), ..self }
    }

    /// Ends the lines of the text with CR LF.
    pub fn crlf_newlines(self, value: bool) -> (r: WriteBuilder)
        ensures
            r == (WriteBuilder { crlf_newlines: Some(value), ..self }),
    {
        WriteBuilder { crlf_newlines: Some(value), ..self }
    }

    /// Sets the encoding of the text.
    pub fn encoding(self, value: &str) -> (r: WriteBuilder)
        ensures
            r.encoding matches Some(s) && s@ == value@,
            r == (WriteBuilder { encoding: r.encoding, ..self }),
    {
        WriteBuilder { encoding: Some(String::from_str(value)), ..self }
    }

    /// Writes only if the file still has this etag.
    pub fn if_match(self, value: &str) -> (r: WriteBuilder)
        ensures
            r.if_match matches Some(s) && s@ == value@,
            r == (WriteBuilder { if_match: r.if_match, ..self }),
    {
        WriteBuilder { if_match: Some(String::from_str(value)), ..self }
    }

    /// The request that this builder describes.
    pub open spec fn spec_request(&self) -> RequestView {
        let r = request_to(Method::Put, url_of(self.base_url@, fs_path(self.path@)));
        let r = match self.data {
            Some(WriteData::Binary(b)) => r.with_body(BodyView::Binary(b@)).with_header(
                "X-IBM-Data-Type"@,
                "binary"@,
            ),
            Some(WriteData::Text(t)) => r.with_header_opt(
                "X-IBM-Data-Type"@,
                text_data_type(opt_view(self.encoding), self.crlf_newlines),
            ).with_body(BodyView::Text(t@)),
            None => r,
        };
        r.with_header_opt("If-Match"@, opt_view(self.if_match))
    }

    /// The request: `PUT` on the file with the data, the data type header,
    /// and `If-Match` when an etag is given.
    pub fn get_request(&self) -> (r: Request)
        ensures
            r@ == self.spec_request(),
    {
        let path = write_fs_path(self.path.as_str());
        let mut r = Request::new(Method::Put, self.base_url.as_str(), &path);
        match &self.data {
            Some(WriteData::Binary(b)) => {
                r.set_body(Body::Binary(b.clone()));
                r.add_header("X-IBM-Data-Type", String::from_str("binary"));
            },
            Some(WriteData::Text(t)) => {
                let h = match (&self.encoding, self.crlf_newlines) {
                    (Some(e), Some(true)) => {
                        let a = concat("text;fileEncoding=", e.as_str());
                        Some(concat(a.as_str(), ";crlf=true"))
                    },
                    (Some(e), _) => Some(concat("text;fileEncoding=", e.as_str())),
                    (None, Some(true)) => Some(String::from_str("text;crlf=true")),
                    _ => None,
                };
                r.add_header_opt("X-IBM-Data-Type", &h);
                r.set_body(Body::Text(t.clone()));
            },
            None => {},
        }
        r.add_header_opt("If-Match", &self.if_match);
        r
    }
}

/// The data type header of a write names the data: `binary` for bytes; for
/// text, `text;fileEncoding=` and the encoding where one is given, followed
/// by `;crlf=true` where CRLF line ends are asked for, `text;crlf=true`
/// where only they are, and no header where neither is. The body is the
/// data, unaltered, and `If-Match` carries the etag where one is given.
pub proof fn write_data_type_header(b: WriteBuilder)
    ensures
        ({
            let r = b.spec_request();
            let types = values_named(r.headers, "X-IBM-Data-Type"@);
            let crlf: Seq<char> = if b.crlf_newlines == Some(true) {
                ";crlf=true"@
            } else {
                Seq::empty()
            };
            &&& values_named(r.headers, "If-Match"@) == opt_values(opt_view(b.if_match))
            &&& match b.data {
                Some(WriteData::Binary(d)) => {
                    &&& r.body == BodyView::Binary(d@)
                    &&& types == seq!["binary"@]
                },
                Some(WriteData::Text(t)) => {
                    &&& r.body == BodyView::Text(t@)
                    &&& types == match b.encoding {
                        Some(e) => seq!["text;fileEncoding="@ + e@ + crlf],
                        None => if b.crlf_newlines == Some(true) {
                            seq!["text;crlf=true"@]
                        } else {
                            Seq::<Seq<char>>::empty()
                        },
                    }
                },
                None => {
                    &&& r.body == BodyView::Empty
                    &&& types == Seq::<Seq<char>>::empty()
                },
            }
        }),
{
    reveal_strlit("X-IBM-Data-Type");
    reveal_strlit("If-Match");
    assert("X-IBM-Data-Type"@[0] != "If-Match"@[0]);
    let name = "X-IBM-Data-Type"@;
    let r0 = request_to(Method::Put, url_of(b.base_url@, fs_path(b.path@)));
    let r1 = match b.data {
        Some(WriteData::Binary(d)) => r0.with_body(BodyView::Binary(d@)).with_header(name, "binary"@),
        Some(WriteData::Text(t)) => r0.with_header_opt(
            name,
            text_data_type(opt_view(b.encoding), b.crlf_newlines),
        ).with_body(BodyView::Text(t@)),
        None => r0,
    };
    match b.data {
        Some(WriteData::Binary(d)) => {
            lemma_header_values(r0.with_body(BodyView::Binary(d@)), name, "binary"@, name);
            lemma_header_values(r0.with_body(BodyView::Binary(d@)), name, "binary"@, "If-Match"@);
            assert(Seq::<Seq<char>>::empty().push("binary"@) =~= seq!["binary"@]);
        },
        Some(WriteData::Text(t)) => {
            let v = text_data_type(opt_view(b.encoding), b.crlf_newlines);
            lemma_header_opt_values(r0, name, v, name);
            lemma_header_opt_values(r0, name, v, "If-Match"@);
            assert(Seq::<Seq<char>>::empty() + opt_values(v) =~= opt_values(v));
            match b.encoding {
                Some(e) => {
                    if b.crlf_newlines != Some(true) {
                        assert("text;fileEncoding="@ + e@ + Seq::<char>::empty() =~= "text;fileEncoding="@
                            + e@);
                    }
                },
                None => {},
            }
        },
        None => {},
    }
    lemma_header_opt_values(r1, "If-Match"@, opt_view(b.if_match), name);
    lemma_header_opt_values(r1, "If-Match"@, opt_view(b.if_match), "If-Match"@);
    assert(Seq::<Seq<char>>::empty() + opt_values(opt_view(b.if_match)) =~= opt_values(
        opt_view(b.if_match),
    ));
}

} // verus!
