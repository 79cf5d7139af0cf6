//! What the dataset and file requests share: the data types of copies and the
//! headers that z/OSMF's answers carry.

use vstd::prelude::*;

use crate::error::{opt_text_result, text_result, Error, ErrorView};

verus! {

/// How the data of a copy is treated.
#[derive(Clone, Copy, Debug, PartialEq, Eq, Structural, Hash)]
pub enum CopyDataType {
    Binary,
    Executable,
    Text,
}

impl CopyDataType {
    /// The name of this value in requests and answers.
    pub open spec fn text(self) -> Seq<char> {
        match self {
            CopyDataType::Binary => "binary"@,
            CopyDataType::Executable => "executable"@,
            CopyDataType::Text => "text"@,
        }
    }

    /// The name of this value in requests and answers.
    pub fn as_str(&self) -> (r: &'static str)
        ensures
            r@ == self.text(),
    {
        match self {
            CopyDataType::Binary => "binary",
            CopyDataType::Executable => "executable",
            CopyDataType::Text => "text",
        }
    }
}

/// A byte that may stand in a header value read as text: visible ASCII or a
/// tab.
pub open spec fn visible_ascii(b: u8) -> bool {
    (32 <= b && b < 127) || b == 9
}

/// The characters of the bytes of a header value, one for one.
pub open spec fn header_chars(b: Seq<u8>) -> Seq<char> {
    Seq::new(b.len(), |i: int| b[i] as char)
}

/// Reading a header value as text: it succeeds when every byte is visible
/// ASCII or a tab.
pub open spec fn header_text(b: Seq<u8>) -> Result<Seq<char>, ErrorView> {
    if forall|i: int| 0 <= i < b.len() ==> visible_ascii(#[trigger] b[i]) {
        Ok(header_chars(b))
    } else {
        Err(ErrorView::ToStr)
    }
}

/// The etag of an answer: none without the header, else its text.
pub open spec fn etag_of(value: Option<Seq<u8>>) -> Result<Option<Seq<char>>, ErrorView> {
    match value {
        None => Ok(None),
        Some(b) => match header_text(b) {
            Ok(t) => Ok(Some(t)),
            Err(e) => Err(e),
        },
    }
}

/// The transaction id of an answer: the text of its header, which must be
/// there.
pub open spec fn transaction_id_of(value: Option<Seq<u8>>) -> Result<Seq<char>, ErrorView> {
    match value {
        None => Err(ErrorView::TransactionId),
        Some(b) => header_text(b),
    }
}

/// The view of an optional header value.
pub open spec fn header_view(value: Option<Vec<u8>>) -> Option<Seq<u8>> {
    match value {
        Some(v) => Some(v@),
        None => None,
    }
}

/// Reads a header value as text.
pub fn header_value_text(value: &Vec<u8>) -> (r: Result<String, Error>)
    ensures
        text_result(r) == header_text(value@),
{
    let mut out = String::new();
    let mut i: usize = 0;
    while i < value.len()
        invariant
            0 <= i <= value.len(),
            out@ == header_chars(value@.take(i as int)),
            forall|k: int| 0 <= k < i ==> visible_ascii(#[trigger] value@[k]),
        decreases value.len() - i,
    {
        let b = value[i];
        if !((32 <= b && b < 127) || b == 9) {
            return Err(Error::ToStr);
        }
        crate::text::push_char(&mut out, b as char);
        i = i + 1;
        proof {
            assert(header_chars(value@.take(i as int)) =~= header_chars(value@.take(i - 1)).push(
                value@[i - 1] as char,
            ));
        }
    }
    proof {
        assert(value@.take(value.len() as int) =~= value@);
    }
    Ok(out)
}

/// Reads the `Etag` header of an answer, given its value if it has one.
pub fn get_etag(value: &Option<Vec<u8>>) -> (r: Result<Option<String>, Error>)
    ensures
        opt_text_result(r) == etag_of(header_view(*value)),
{
    match value {
        None => Ok(None),
        Some(v) => match header_value_text(v) {
            Ok(t) => Ok(Some(t)),
            Err(e) => Err(e),
        },
    }
}

/// Reads the `X-IBM-Txid` header of an answer, given its value if it has one.
pub fn get_transaction_id(value: &Option<Vec<u8>>) -> (r: Result<String, Error>)
    ensures
        text_result(r) == transaction_id_of(header_view(*value)),
{
    match value {
        None => Err(Error::TransactionId),
        Some(v) => header_value_text(v),
    }
}

/// The etag and transaction id of an answer.
#[derive(Clone, Debug, PartialEq, Eq, Hash)]
pub struct Etag {
    pub etag: Option<String>,
    pub transaction_id: String,
}

impl Etag {
    /// Reads the etag and the transaction id of an answer, in that order.
    pub fn from_headers(etag: &Option<Vec<u8>>, transaction_id: &Option<Vec<u8>>) -> (r: Result<
        Etag,
        Error,
    >)
        ensures
            match r {
                Ok(v) => etag_of(header_view(*etag)) == Ok::<Option<Seq<char>>, ErrorView>(
                    crate::request::opt_view(v.etag),
                ) && transaction_id_of(header_view(*transaction_id)) == Ok::<
                    Seq<char>,
                    ErrorView,
                >(v.transaction_id@),
                Err(e) => etag_of(header_view(*etag)) == Err::<Option<Seq<char>>, ErrorView>(e@)
                    || (etag_of(header_view(*etag)) is Ok && transaction_id_of(
                    header_view(*transaction_id),
                ) == Err::<Seq<char>, ErrorView>(e@)),
            },
    {
        let etag = match get_etag(etag) {
            Ok(v) => v,
            Err(e) => return Err(e),
        };
        let transaction_id = match get_transaction_id(transaction_id) {
            Ok(v) => v,
            Err(e) => return Err(e),
        };
        Ok(Etag { etag, transaction_id })
    }

    /// The etag, if the answer had one.
    pub fn etag(&self) -> (r: Option<&str>)
        ensures
            crate::request::opt_str_view(r) == crate::request::opt_view(self.etag),
    {
        match &self.etag {
            Some(s) => Some(s.as_str()),
            None => None,
        }
    }

    /// The transaction id.
    pub fn transaction_id(&self) -> (r: &str)
        ensures
            r@ == self.transaction_id@,
    {
        self.transaction_id.as_str()
    }
}

} // verus!
