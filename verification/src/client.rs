//! Requests to the bank and the reading of its responses.

use crate::error::{FioError, FioErrorView};
use crate::text::{find_char, is_first_index};
use crate::types::transaction::xml::import_xml;
use crate::types::transaction::Import;
use crate::types::ExportFormat;
use crate::validation::{is_date_shape, is_year_shape, validate_date_string, validate_year_string};
use vstd::prelude::*;
use vstd::string::{StrSliceExecFns, StringExecFns};

verus! {

/// The failure that an HTTP status stands for, if it stands for one.
pub open spec fn status_error(status: u16) -> Option<FioErrorView> {
    if status == 409 {
        Some(FioErrorView::Limit)
    } else if status == 500 {
        Some(FioErrorView::Malformed)
    } else if status == 413 {
        Some(FioErrorView::TooLarge)
    } else if status == 404 {
        Some(FioErrorView::Token)
    } else if status == 422 {
        Some(FioErrorView::HistoricalDataLocked)
    } else {
        None
    }
}

/// Maps an HTTP status to the failure it stands for.
pub fn map_status_error(status: u16) -> (r: Option<FioError>)
    ensures
        match r {
            Some(e) => status_error(status) == Some(e@),
            None => status_error(status) is None,
        },
{
    if status == 409 {
        Some(FioError::Limit)
    } else if status == 500 {
        Some(FioError::Malformed)
    } else if status == 413 {
        Some(FioError::TooLarge)
    } else if status == 404 {
        Some(FioError::Token)
    } else if status == 422 {
        Some(FioError::HistoricalDataLocked)
    } else {
        None
    }
}

/// Whether `status` reports success: one of the 2xx codes.
pub open spec fn is_success(status: u16) -> bool {
    200 <= status < 300
}

/// What a response with `status` and `body` amounts to: the failure that the
/// status stands for; else, for a 2xx status, the body; else a transport
/// failure.
pub open spec fn text_outcome(status: u16, body: Seq<char>) -> Result<Seq<char>, FioErrorView> {
    match status_error(status) {
        Some(e) => Err(e),
        None => if is_success(status) {
            Ok(body)
        } else {
            Err(FioErrorView::Reqwest("Unexpected HTTP status"@))
        },
    }
}

/// Reads a response whose body is handed on as it is.
pub fn read_text(status: u16, body: String) -> (r: Result<String, FioError>)
    ensures
        match r {
            Ok(text) => text_outcome(status, body@) == Ok::<Seq<char>, FioErrorView>(text@),
            Err(e) => text_outcome(status, body@) == Err::<Seq<char>, FioErrorView>(e@),
        },
{
    match map_status_error(status) {
        Some(e) => Err(e),
        None => if 200 <= status && status < 300 {
            Ok(body)
        } else {
            Err(FioError::Reqwest(String::from_str("Unexpected HTTP status")))
        },
    }
}

/// Reads a response of which only success or failure matters.
pub fn read_empty(status: u16, body: String) -> (r: Result<(), FioError>)
    ensures
        match r {
            Ok(_) => text_outcome(status, body@) is Ok,
            Err(e) => text_outcome(status, body@) == Err::<Seq<char>, FioErrorView>(e@),
        },
{
    match read_text(status, body) {
        Ok(_) => Ok(()),
        Err(e) => Err(e),
    }
}

/// The last official statement that the bank has made: its year and its
/// number within the year.
#[derive(Debug, Clone, PartialEq, Eq)]
pub struct LastStatementId {
    /// Year
    pub year: String,
    /// Statement number
    pub id: String,
}

/// Reads the answer `<year>,<id>`: what precedes the first comma is the year,
/// what follows it is the id. An answer without a comma is rejected.
pub fn parse_last_statement_id(text: &str) -> (r: Result<LastStatementId, FioError>)
    ensures
        match r {
            Ok(parsed) => exists|i: int|
                {
                    &&& is_first_index(text@, ',', i)
                    &&& parsed.year@ == text@.subrange(0, i)
                    &&& parsed.id@ == text@.subrange(i + 1, text@.len() as int)
                },
            Err(e) => {
                &&& forall|j: int| 0 <= j < text@.len() ==> text@[j] != ','
                &&& e@ == FioErrorView::InvalidResponse("Not enough elements returned"@)
            },
        },
{
    match find_char(text, ',') {
        Some(comma) => {
            let length = text.unicode_len();
            let year = text.substring_char(0, comma);
            let id = text.substring_char(comma + 1, length);
            Ok(LastStatementId { year: String::from_str(year), id: String::from_str(id) })
        },
        None => Err(FioError::InvalidResponse(String::from_str("Not enough elements returned"))),
    }
}

/// Reads the response to [`Fio::last_statement_id`].
pub fn read_last_statement_id(status: u16, body: String) -> (r: Result<LastStatementId, FioError>)
    ensures
        match r {
            Ok(parsed) => {
                &&& text_outcome(status, body@) is Ok
                &&& exists|i: int|
                    {
                        &&& is_first_index(body@, ',', i)
                        &&& parsed.year@ == body@.subrange(0, i)
                        &&& parsed.id@ == body@.subrange(i + 1, body@.len() as int)
                    }
            },
            Err(e) => match text_outcome(status, body@) {
                Ok(_) => {
                    &&& forall|j: int| 0 <= j < body@.len() ==> body@[j] != ','
                    &&& e@ == FioErrorView::InvalidResponse("Not enough elements returned"@)
                },
                Err(failure) => e@ == failure,
            },
        },
{
    match read_text(status, body) {
        Ok(text) => parse_last_statement_id(text.as_str()),
        Err(e) => Err(e),
    }
}

/// What the transport is asked to send.
#[derive(Debug, Clone, PartialEq, Eq)]
pub enum Request {
    /// A GET of `url`.
    Get {
        /// Address
        url: String,
    },
    /// A multipart POST to `url` with the text fields `token` and `type` and
    /// the file part `file`.
    Post {
        /// Address
        url: String,
        /// Field `token`
        token: String,
        /// Field `type`
        import_type: String,
        /// File name of the part `file`
        file_name: String,
        /// MIME type of the part `file`
        mime: String,
        /// Content of the part `file`
        body: String,
    },
}

/// A [`Request`] with its texts as character sequences.
pub enum RequestView {
    Get { url: Seq<char> },
    Post {
        url: Seq<char>,
        token: Seq<char>,
        import_type: Seq<char>,
        file_name: Seq<char>,
        mime: Seq<char>,
        body: Seq<char>,
    },
}

impl View for Request {
    type V = RequestView;

    open spec fn view(&self) -> RequestView {
        match self {
            Request::Get { url } => RequestView::Get { url: url@ },
            Request::Post { url, token, import_type, file_name, mime, body } => RequestView::Post {
                url: url@,
                token: token@,
                import_type: import_type@,
                file_name: file_name@,
                mime: mime@,
                body: body@,
            },
        }
    }
}

/// The address of the REST method `rest_method`.
pub open spec fn rest_url(rest_method: Seq<char>) -> Seq<char> {
    "https://fioapi.fio.cz/v1/rest/"@ + rest_method
}

/// The GET of the REST method `rest_method`.
pub open spec fn get_of(rest_method: Seq<char>) -> RequestView {
    RequestView::Get { url: rest_url(rest_method) }
}

/// The import POST of `body` as format `import_type` under `token`.
pub open spec fn import_of(token: Seq<char>, import_type: Seq<char>, body: Seq<char>) -> RequestView {
    RequestView::Post {
        url: rest_url("import/"@),
        token,
        import_type,
        file_name: "import.xml"@,
        mime: "application/xml"@,
        body,
    }
}

/// Movements between two dates: `periods/{token}/{start}/{end}/transactions.{format}`.
pub open spec fn periods_method(
    token: Seq<char>,
    start: Seq<char>,
    end: Seq<char>,
    format: Seq<char>,
) -> Seq<char> {
    "periods/"@ + token + "/"@ + start + "/"@ + end + "/transactions."@ + format
}

/// Movements since the bookmark: `last/{token}/transactions.{format}`.
pub open spec fn last_method(token: Seq<char>, format: Seq<char>) -> Seq<char> {
    "last/"@ + token + "/transactions."@ + format
}

/// An official statement: `by-id/{token}/{year}/{id}/transactions.{format}`.
pub open spec fn by_id_method(
    token: Seq<char>,
    year: Seq<char>,
    id: Seq<char>,
    format: Seq<char>,
) -> Seq<char> {
    "by-id/"@ + token + "/"@ + year + "/"@ + id + "/transactions."@ + format
}

/// Moving the bookmark to a movement: `set-last-id/{token}/{id}/`.
pub open spec fn set_last_id_method(token: Seq<char>, id: Seq<char>) -> Seq<char> {
    "set-last-id/"@ + token + "/"@ + id + "/"@
}

/// Moving the bookmark to a date: `set-last-date/{token}/{date}/`.
pub open spec fn set_last_date_method(token: Seq<char>, date: Seq<char>) -> Seq<char> {
    "set-last-date/"@ + token + "/"@ + date + "/"@
}

/// The number of the last statement: `lastStatement/{token}/statement`.
pub open spec fn last_statement_method(token: Seq<char>) -> Seq<char> {
    "lastStatement/"@ + token + "/statement"@
}

/// Card transactions of a merchant: `merchant/{token}/{start}/{end}/transactions.xml`.
pub open spec fn merchant_method(token: Seq<char>, start: Seq<char>, end: Seq<char>) -> Seq<char> {
    "merchant/"@ + token + "/"@ + start + "/"@ + end + "/transactions.xml"@
}

/// The GET of the REST method `rest_method`.
fn get_request(rest_method: String) -> (request: Request)
    ensures
        request@ == get_of(rest_method@),
{
    Request::Get { url: String::from_str("https://fioapi.fio.cz/v1/rest/").concat(rest_method.as_str()) }
}

/// Fio API client: holds the access token and composes the requests made
/// under it.
pub struct Fio {
    token: String,
}

impl Fio {
    /// The access token.
    pub closed spec fn token(&self) -> Seq<char> {
        self.token@
    }

    /// A client for the account behind `token`.
    pub fn new(token: &str) -> (fio: Fio)
        ensures
            fio.token() == token@,
    {
        Fio { token: String::from_str(token) }
    }

    /// `periods/{token}/{start}/{end}/transactions.{format}`, dates unchecked.
    fn periods(&self, start: &str, end: &str, format: &str) -> (request: Request)
        ensures
            request@ == get_of(periods_method(self.token(), start@, end@, format@)),
    {
        let mut method = String::from_str("periods/");
        method.append(self.token.as_str());
        method.append("/");
        method.append(start);
        method.append("/");
        method.append(end);
        method.append("/transactions.");
        method.append(format);
        get_request(method)
    }

    /// `last/{token}/transactions.{format}`.
    fn last(&self, format: &str) -> (request: Request)
        ensures
            request@ == get_of(last_method(self.token(), format@)),
    {
        let mut method = String::from_str("last/");
        method.append(self.token.as_str());
        method.append("/transactions.");
        method.append(format);
        get_request(method)
    }

    /// `by-id/{token}/{year}/{id}/transactions.{format}`, year unchecked.
    fn by_id(&self, year: &str, id: &str, format: &str) -> (request: Request)
        ensures
            request@ == get_of(by_id_method(self.token(), year@, id@, format@)),
    {
        let mut method = String::from_str("by-id/");
        method.append(self.token.as_str());
        method.append("/");
        method.append(year);
        method.append("/");
        method.append(id);
        method.append("/transactions.");
        method.append(format);
        get_request(method)
    }

    /// Movements between `start` and `end`, as JSON. Both dates must have the
    /// shape `YYYY-MM-DD`.
    pub fn movements_in_period(&self, start: &str, end: &str) -> (r: Result<Request, FioError>)
        ensures
            match r {
                Ok(request) => {
                    &&& is_date_shape(start@) && is_date_shape(end@)
                    &&& request@ == get_of(periods_method(self.token(), start@, end@, "json"@))
                },
                Err(e) => {
                    &&& !(is_date_shape(start@) && is_date_shape(end@))
                    &&& e@ == FioErrorView::InvalidDateFormat
                },
            },
    {
        if !validate_date_string(start) {
            return Err(FioError::InvalidDateFormat);
        }
        if !validate_date_string(end) {
            return Err(FioError::InvalidDateFormat);
        }
        Ok(self.periods(start, end, "json"))
    }

    /// Movements between `start` and `end`, in `format`. Both dates must have
    /// the shape `YYYY-MM-DD`; the format is not checked against what the
    /// endpoint supports.
    pub fn movements_in_period_raw(&self, start: &str, end: &str, format: ExportFormat) -> (r:
        Result<Request, FioError>)
        ensures
            match r {
                Ok(request) => {
                    &&& is_date_shape(start@) && is_date_shape(end@)
                    &&& request@ == get_of(
                        periods_method(self.token(), start@, end@, format.token()),
                    )
                },
                Err(e) => {
                    &&& !(is_date_shape(start@) && is_date_shape(end@))
                    &&& e@ == FioErrorView::InvalidDateFormat
                },
            },
    {
        if !validate_date_string(start) {
            return Err(FioError::InvalidDateFormat);
        }
        if !validate_date_string(end) {
            return Err(FioError::InvalidDateFormat);
        }
        Ok(self.periods(start, end, format.as_str()))
    }

    /// Movements since the bookmark, as JSON.
    pub fn movements_since_last(&self) -> (request: Request)
        ensures
            request@ == get_of(last_method(self.token(), "json"@)),
    {
        self.last("json")
    }

    /// Movements since the bookmark, in `format`.
    pub fn movements_since_last_raw(&self, format: ExportFormat) -> (request: Request)
        ensures
            request@ == get_of(last_method(self.token(), format.token())),
    {
        self.last(format.as_str())
    }

    /// The official statement `id` of `year`, as JSON. The year must have the
    /// shape `YYYY`; the id is passed on as it is.
    pub fn statements(&self, year: &str, id: &str) -> (r: Result<Request, FioError>)
        ensures
            match r {
                Ok(request) => {
                    &&& is_year_shape(year@)
                    &&& request@ == get_of(by_id_method(self.token(), year@, id@, "json"@))
                },
                Err(e) => !is_year_shape(year@) && e@ == FioErrorView::InvalidDateFormat,
            },
    {
        if !validate_year_string(year) {
            return Err(FioError::InvalidDateFormat);
        }
        Ok(self.by_id(year, id, "json"))
    }

    /// The official statement `id` of `year`, in `format`. The year must have
    /// the shape `YYYY`; the id is passed on as it is.
    pub fn statements_raw(&self, year: &str, id: &str, format: ExportFormat) -> (r: Result<
        Request,
        FioError,
    >)
        ensures
            match r {
                Ok(request) => {
                    &&& is_year_shape(year@)
                    &&& request@ == get_of(by_id_method(self.token(), year@, id@, format.token()))
                },
                Err(e) => !is_year_shape(year@) && e@ == FioErrorView::InvalidDateFormat,
            },
    {
        if !validate_year_string(year) {
            return Err(FioError::InvalidDateFormat);
        }
        Ok(self.by_id(year, id, format.as_str()))
    }

    /// Moves the bookmark to the movement `id`.
    pub fn set_last_id(&self, id: &str) -> (request: Request)
        ensures
            request@ == get_of(set_last_id_method(self.token(), id@)),
    {
        let mut method = String::from_str("set-last-id/");
        method.append(self.token.as_str());
        method.append("/");
        method.append(id);
        method.append("/");
        get_request(method)
    }

    /// Moves the bookmark to `date`, which must have the shape `YYYY-MM-DD`.
    pub fn set_last_date(&self, date: &str) -> (r: Result<Request, FioError>)
        ensures
            match r {
                Ok(request) => {
                    &&& is_date_shape(date@)
                    &&& request@ == get_of(set_last_date_method(self.token(), date@))
                },
                Err(e) => !is_date_shape(date@) && e@ == FioErrorView::InvalidDateFormat,
            },
    {
        if !validate_date_string(date) {
            return Err(FioError::InvalidDateFormat);
        }
        let mut method = String::from_str("set-last-date/");
        method.append(self.token.as_str());
        method.append("/");
        method.append(date);
        method.append("/");
        Ok(get_request(method))
    }

    /// Asks for the number of the last official statement. The answer is read
    /// by [`parse_last_statement_id`].
    pub fn last_statement_id(&self) -> (request: Request)
        ensures
            request@ == get_of(last_statement_method(self.token())),
    {
        let mut method = String::from_str("lastStatement/");
        method.append(self.token.as_str());
        method.append("/statement");
        get_request(method)
    }

    /// Submits `transactions` as an XML import.
    pub fn import_transactions(&self, transactions: Import) -> (request: Request)
        ensures
            request@ == import_of(self.token(), "xml"@, import_xml(transactions.orders@)),
    {
        self.import_raw("xml", transactions.to_xml())
    }

    /// Submits `body` as an import in the format that `import_type` names
    /// (`xml`, `abo`, `pain001_xml`, `pain008_xml`). The file part is named
    /// `import.xml` and typed `application/xml` whatever the format.
    pub fn import_raw(&self, import_type: &str, body: String) -> (request: Request)
        ensures
            request@ == import_of(self.token(), import_type@, body@),
    {
        Request::Post {
            url: String::from_str("https://fioapi.fio.cz/v1/rest/").concat("import/"),
            token: self.token.clone(),
            import_type: String::from_str(import_type),
            file_name: String::from_str("import.xml"),
            mime: String::from_str("application/xml"),
            body,
        }
    }

    /// Card transactions of a merchant between `start` and `end`, as XML, the
    /// only format of this endpoint. Both dates must have the shape
    /// `YYYY-MM-DD`.
    pub fn merchant_transactions_raw(&self, start: &str, end: &str) -> (r: Result<Request, FioError>)
        ensures
            match r {
                Ok(request) => {
                    &&& is_date_shape(start@) && is_date_shape(end@)
                    &&& request@ == get_of(merchant_method(self.token(), start@, end@))
                },
                Err(e) => {
                    &&& !(is_date_shape(start@) && is_date_shape(end@))
                    &&& e@ == FioErrorView::InvalidDateFormat
                },
            },
    {
        if !validate_date_string(start) {
            return Err(FioError::InvalidDateFormat);
        }
        if !validate_date_string(end) {
            return Err(FioError::InvalidDateFormat);
        }
        let mut method = String::from_str("merchant/");
        method.append(self.token.as_str());
        method.append("/");
        method.append(start);
        method.append("/");
        method.append(end);
        method.append("/transactions.xml");
        Ok(get_request(method))
    }
}

} // verus!
