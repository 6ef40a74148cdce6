//! The failures that an operation can report.

use vstd::prelude::*;
use vstd::string::StringExecFns;

verus! {

/// Why an operation failed.
#[derive(Debug, Clone, PartialEq, Eq)]
pub enum FioError {
    /// The transport failed; the text describes how.
    Reqwest(String),
    /// A JSON body did not have the expected structure; the text describes
    /// where.
    SerdeJsonError(String),
    /// API limit reached
    Limit,
    /// Invalid token
    Token,
    /// Malformed request
    Malformed,
    /// Too large request
    TooLarge,
    /// The requested data is older than the bank hands out without a fresh
    /// authorisation.
    HistoricalDataLocked,
    /// Invalid date format
    InvalidDateFormat,
    /// Invalid response
    InvalidResponse(String),
    /// Missing body
    MissingBody,
}

/// A [`FioError`] with its texts as character sequences.
pub enum FioErrorView {
    Reqwest(Seq<char>),
    SerdeJsonError(Seq<char>),
    Limit,
    Token,
    Malformed,
    TooLarge,
    HistoricalDataLocked,
    InvalidDateFormat,
    InvalidResponse(Seq<char>),
    MissingBody,
}

impl View for FioError {
    type V = FioErrorView;

    open spec fn view(&self) -> FioErrorView {
        match self {
            FioError::Reqwest(detail) => FioErrorView::Reqwest(detail@),
            FioError::SerdeJsonError(detail) => FioErrorView::SerdeJsonError(detail@),
            FioError::Limit => FioErrorView::Limit,
            FioError::Token => FioErrorView::Token,
            FioError::Malformed => FioErrorView::Malformed,
            FioError::TooLarge => FioErrorView::TooLarge,
            FioError::HistoricalDataLocked => FioErrorView::HistoricalDataLocked,
            FioError::InvalidDateFormat => FioErrorView::InvalidDateFormat,
            FioError::InvalidResponse(detail) => FioErrorView::InvalidResponse(detail@),
            FioError::MissingBody => FioErrorView::MissingBody,
        }
    }
}

impl FioErrorView {
    /// The message shown for this failure.
    pub open spec fn message(self) -> Seq<char> {
        match self {
            FioErrorView::Reqwest(detail) => detail,
            FioErrorView::SerdeJsonError(detail) => detail,
            FioErrorView::Limit => "We have hit the API limit, try again later"@,
            FioErrorView::Token => "The token does not exist or is deactivated"@,
            FioErrorView::Malformed => "The request was malformed"@,
            FioErrorView::TooLarge => "The requesting too many items"@,
            FioErrorView::HistoricalDataLocked => "The requested historical data is locked"@,
            FioErrorView::InvalidDateFormat => "Invalid date format"@,
            FioErrorView::InvalidResponse(detail) => "Invalid response: "@ + detail,
            FioErrorView::MissingBody => "Missing body"@,
        }
    }
}

impl FioError {
    /// The message shown for this failure.
    pub fn to_string(&self) -> (message: String)
        ensures
            message@ == self@.message(),
    {
        match self {
            FioError::Reqwest(detail) => detail.clone(),
            FioError::SerdeJsonError(detail) => detail.clone(),
            FioError::Limit => String::from_str("We have hit the API limit, try again later"),
            FioError::Token => String::from_str("The token does not exist or is deactivated"),
            FioError::Malformed => String::from_str("The request was malformed"),
            FioError::TooLarge => String::from_str("The requesting too many items"),
            FioError::HistoricalDataLocked => String::from_str(
                "The requested historical data is locked",
            ),
            FioError::InvalidDateFormat => String::from_str("Invalid date format"),
            FioError::InvalidResponse(detail) => String::from_str("Invalid response: ").concat(
                detail.as_str(),
            ),
            FioError::MissingBody => String::from_str("Missing body"),
        }
    }
}

} // verus!
