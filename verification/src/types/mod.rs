//! The value types of the API.

pub mod account_statement;
pub mod decimal;
pub mod import_response;
pub mod merchant;
pub mod transaction;

use vstd::prelude::*;
use vstd::string::StringExecFns;

verus! {

/// The formats in which the bank exports movements and statements.
///
/// Not every endpoint accepts every format; the type does not enforce which.
#[derive(Debug, Clone, Copy, Eq, PartialEq, Structural)]
pub enum ExportFormat {
    /// JSON format
    Json,
    /// XML (Fio proprietary) format
    Xml,
    /// CSV format (semicolon-separated, UTF-8)
    Csv,
    /// GPC format (fixed-width, Windows-1250)
    Gpc,
    /// HTML format
    Html,
    /// OFX format
    Ofx,
    /// PDF format (statements only)
    Pdf,
    /// MT940 / STA format (statements only)
    Mt940,
    /// CBA XML / CAMT.053 Czech national format (statements only)
    CbaXml,
    /// SBA XML / CAMT.053 Slovak national format (statements only)
    SbaXml,
}

impl ExportFormat {
    /// The lower-case token that names this format in a request path.
    pub open spec fn token(self) -> Seq<char> {
        match self {
            Self::Json => "json"@,
            Self::Xml => "xml"@,
            Self::Csv => "csv"@,
            Self::Gpc => "gpc"@,
            Self::Html => "html"@,
            Self::Ofx => "ofx"@,
            Self::Pdf => "pdf"@,
            Self::Mt940 => "sta"@,
            Self::CbaXml => "cba_xml"@,
            Self::SbaXml => "sba_xml"@,
        }
    }

    /// The lower-case token that names this format in a request path.
    pub fn as_str(&self) -> (s: &'static str)
        ensures
            s@ == self.token(),
    {
        match self {
            Self::Json => "json",
            Self::Xml => "xml",
            Self::Csv => "csv",
            Self::Gpc => "gpc",
            Self::Html => "html",
            Self::Ofx => "ofx",
            Self::Pdf => "pdf",
            Self::Mt940 => "sta",
            Self::CbaXml => "cba_xml",
            Self::SbaXml => "sba_xml",
        }
    }

    /// The token as an owned string.
    pub fn to_string(&self) -> (s: String)
        ensures
            s@ == self.token(),
    {
        String::from_str(self.as_str())
    }
}

} // verus!
