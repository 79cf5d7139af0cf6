//! The errors that the library's own parsing and checking can give.

use vstd::prelude::*;

use crate::text::IntErrorKind;

verus! {

/// An error found while reading a value or a response.
#[derive(Clone, Debug)]
pub enum Error {
    /// A value that does not have the expected form.
    InvalidValue(String),
    /// A record range that has none of the three accepted forms.
    RecordRange(String),
    /// A number that could not be read.
    ParseInt(IntErrorKind),
    /// A response whose data does not have the expected form.
    Custom(String),
    /// A response without a transaction id header.
    TransactionId,
    /// A response without an etag header.
    Etag,
    /// A header value with a byte that is not visible ASCII.
    ToStr,
    /// Query parameters that cannot be written into a URL; the text says
    /// what could not be written.
    Query(String),
}

/// The mathematical value of an [`Error`].
pub enum ErrorView {
    InvalidValue(Seq<char>),
    RecordRange(Seq<char>),
    ParseInt(IntErrorKind),
    Custom(Seq<char>),
    TransactionId,
    Etag,
    ToStr,
    Query(Seq<char>),
}

impl View for Error {
    type V = ErrorView;

    open spec fn view(&self) -> ErrorView {
        match self {
            Error::InvalidValue(s) => ErrorView::InvalidValue(s@),
            Error::RecordRange(s) => ErrorView::RecordRange(s@),
            Error::ParseInt(k) => ErrorView::ParseInt(*k),
            Error::Custom(s) => ErrorView::Custom(s@),
            Error::TransactionId => ErrorView::TransactionId,
            Error::Etag => ErrorView::Etag,
            Error::ToStr => ErrorView::ToStr,
            Error::Query(s) => ErrorView::Query(s@),
        }
    }
}

impl Error {
    /// A description of the error, as the library's `Display` text gives it.
    pub fn message(&self) -> (r: String)
        ensures
            r@ == self.spec_message(),
    {
        match self {
            Error::InvalidValue(s) => s.clone(),
            Error::RecordRange(s) => crate::text::concat("invalid record range: ", s.as_str()),
            Error::ParseInt(_) => String::from_str("invalid number"),
            Error::Custom(s) => s.clone(),
            Error::TransactionId => String::from_str("missing transaction id"),
            Error::Etag => String::from_str("missing etag"),
            Error::ToStr => String::from_str("failed to convert header to a str"),
            Error::Query(s) => s.clone(),
        }
    }

    /// The text of [`Error::message`].
    pub open spec fn spec_message(&self) -> Seq<char> {
        match self {
            Error::InvalidValue(s) => s@,
            Error::RecordRange(s) => "invalid record range: "@ + s@,
            Error::ParseInt(_) => "invalid number"@,
            Error::Custom(s) => s@,
            Error::TransactionId => "missing transaction id"@,
            Error::Etag => "missing etag"@,
            Error::ToStr => "failed to convert header to a str"@,
            Error::Query(s) => s@,
        }
    }
}

/// The view of the result of reading a text.
pub open spec fn text_result(r: Result<String, Error>) -> Result<Seq<char>, ErrorView> {
    match r {
        Ok(s) => Ok(s@),
        Err(e) => Err(e@),
    }
}

/// The view of the result of reading an optional text.
pub open spec fn opt_text_result(
    r: Result<Option<String>, Error>,
) -> Result<Option<Seq<char>>, ErrorView> {
    match r {
        Ok(Some(s)) => Ok(Some(s@)),
        Ok(None) => Ok(None),
        Err(e) => Err(e@),
    }
}

} // verus!
