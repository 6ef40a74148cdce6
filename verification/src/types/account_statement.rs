//! Account statements and the self-describing values of their rows.

use crate::error::{FioError, FioErrorView};
use crate::literal::{
    integer_reading, integer_text, integer_to_text, lemma_integer_text_reads_back, parse_integer,
};
use crate::types::decimal::Decimal;
use std::collections::HashMap;
use vstd::prelude::*;
use vstd::string::StringExecFns;

verus! {

/// Holder for account statement
#[derive(Debug, Clone, Eq, PartialEq)]
pub struct Statement {
    /// Account statement
    pub account_statement: AccountStatement,
}

/// Account statement
#[derive(Debug, Clone, Eq, PartialEq)]
pub struct AccountStatement {
    /// Account info
    pub info: Info,
    /// Transaction list
    pub transaction_list: TransactionList,
}

/// Account info
#[derive(Debug, Clone, Eq, PartialEq)]
pub struct Info {
    /// Account ID
    pub account_id: String,
    /// Bank ID
    pub bank_id: String,
    /// Currency
    pub currency: String,
    /// IBAN
    pub iban: String,
    /// BIC
    pub bic: String,
    /// Opening balance
    pub opening_balance: Decimal,
    /// Closing balance
    pub closing_balance: Decimal,
    /// Date start
    pub date_start: String,
    /// Date end
    pub date_end: String,
    /// Year list: the JSON text of the member, `None` where it is null
    pub year_list: Option<String>,
    /// ID list
    pub id_list: Option<i64>,
    /// ID from
    pub id_from: Option<i64>,
    /// ID to
    pub id_to: Option<i64>,
    /// ID last download
    pub id_last_download: Option<i64>,
}

/// Transaction list
#[derive(Debug, Clone, Eq, PartialEq)]
pub struct TransactionList {
    /// Transactions: each row maps a column key of the bank to its value
    pub transaction: Vec<HashMap<String, Option<TransactionData>>>,
}

/// Transaction data
#[derive(Debug, Clone, Eq, PartialEq)]
pub struct TransactionData {
    /// Transaction Data Value
    pub value: TransactionDataEnum,
    /// Transaction Data Name
    pub name: String,
    /// Transaction Data Id
    pub id: i64,
}

/// The value of a column: an integer, a string or an exact decimal, decided
/// by how the value was written.
#[derive(Debug, Clone, PartialEq, Eq)]
pub enum TransactionDataEnum {
    /// Transaction data int value
    Integer(i64),
    /// Transaction data string value
    String(String),
    /// Transaction data decimal value
    Decimal(Decimal),
}

/// A [`TransactionDataEnum`] with its text as a character sequence.
pub enum TransactionDataView {
    Integer(i64),
    String(Seq<char>),
    Decimal(Decimal),
}

impl View for TransactionDataEnum {
    type V = TransactionDataView;

    open spec fn view(&self) -> TransactionDataView {
        match self {
            TransactionDataEnum::Integer(value) => TransactionDataView::Integer(*value),
            TransactionDataEnum::String(text) => TransactionDataView::String(text@),
            TransactionDataEnum::Decimal(value) => TransactionDataView::Decimal(*value),
        }
    }
}

/// A scalar as it stands in a JSON text.
#[derive(Debug, Clone, PartialEq, Eq)]
pub enum JsonScalar {
    /// A value written in quotes; the text is what stands between them,
    /// escapes resolved.
    Quoted(String),
    /// A value written without quotes; the text is the literal itself.
    Bare(String),
}

/// A [`JsonScalar`] with its text as a character sequence.
pub enum JsonScalarView {
    Quoted(Seq<char>),
    Bare(Seq<char>),
}

impl View for JsonScalar {
    type V = JsonScalarView;

    open spec fn view(&self) -> JsonScalarView {
        match self {
            JsonScalar::Quoted(text) => JsonScalarView::Quoted(text@),
            JsonScalar::Bare(text) => JsonScalarView::Bare(text@),
        }
    }
}

/// First attempt: a bare integer literal within the range of `i64`.
pub open spec fn integer_attempt(literal: JsonScalarView) -> Option<i64> {
    match literal {
        JsonScalarView::Bare(text) => integer_reading(text),
        JsonScalarView::Quoted(_) => None,
    }
}

/// Second attempt: anything in quotes, whatever it holds.
pub open spec fn string_attempt(literal: JsonScalarView) -> Option<Seq<char>> {
    match literal {
        JsonScalarView::Quoted(text) => Some(text),
        JsonScalarView::Bare(_) => None,
    }
}

/// Third attempt: a bare literal that reads as a decimal.
pub open spec fn decimal_attempt(literal: JsonScalarView) -> Option<Decimal> {
    match literal {
        JsonScalarView::Bare(text) => Decimal::parsed(text),
        JsonScalarView::Quoted(_) => None,
    }
}

/// The value that `literal` decodes to: the first of the three attempts that
/// succeeds, in the order integer, string, decimal.
pub open spec fn decoded(literal: JsonScalarView) -> Option<TransactionDataView> {
    if let Some(value) = integer_attempt(literal) {
        Some(TransactionDataView::Integer(value))
    } else if let Some(text) = string_attempt(literal) {
        Some(TransactionDataView::String(text))
    } else if let Some(value) = decimal_attempt(literal) {
        Some(TransactionDataView::Decimal(value))
    } else {
        None
    }
}

/// The literal that `value` is written as.
pub open spec fn encoded(value: TransactionDataView) -> JsonScalarView {
    match value {
        TransactionDataView::Integer(value) => JsonScalarView::Bare(integer_text(value as int)),
        TransactionDataView::String(text) => JsonScalarView::Quoted(text),
        TransactionDataView::Decimal(value) => JsonScalarView::Bare(value.text()),
    }
}

/// Whether the printed form of `value` decodes to `value` again: it must not
/// read as an integer, and must read as the same decimal.
pub open spec fn reads_back(value: Decimal) -> bool {
    &&& integer_reading(value.text()) is None
    &&& Decimal::parsed(value.text()) == Some(value)
}

impl TransactionDataEnum {
    /// Decodes a scalar by its shape.
    pub fn decode(literal: &JsonScalar) -> (r: Result<TransactionDataEnum, FioError>)
        ensures
            match r {
                Ok(value) => decoded(literal@) == Some(value@),
                Err(e) => {
                    &&& decoded(literal@) is None
                    &&& e@ == FioErrorView::SerdeJsonError(
                        "data did not match any variant of untagged enum TransactionDataEnum"@,
                    )
                },
            },
    {
        if let JsonScalar::Bare(text) = literal {
            if let Some(value) = parse_integer(text.as_str()) {
                return Ok(TransactionDataEnum::Integer(value));
            }
        }
        if let JsonScalar::Quoted(text) = literal {
            return Ok(TransactionDataEnum::String(text.clone()));
        }
        if let JsonScalar::Bare(text) = literal {
            if let Some(value) = Decimal::parse(text.as_str()) {
                return Ok(TransactionDataEnum::Decimal(value));
            }
        }
        Err(
            FioError::SerdeJsonError(
                String::from_str("data did not match any variant of untagged enum TransactionDataEnum"),
            ),
        )
    }

    /// Writes the value as a scalar: integers and decimals bare, strings in
    /// quotes.
    pub fn encode(&self) -> (literal: JsonScalar)
        ensures
            literal@ == encoded(self@),
    {
        match self {
            TransactionDataEnum::Integer(value) => JsonScalar::Bare(integer_to_text(*value)),
            TransactionDataEnum::String(text) => JsonScalar::Quoted(text.clone()),
            TransactionDataEnum::Decimal(value) => JsonScalar::Bare(value.to_string()),
        }
    }
}

/// Encoding a value and decoding the result gives the value back: always for
/// an integer and for a string, and for a decimal exactly when its printed
/// form reads back as itself.
pub proof fn lemma_encode_then_decode(value: TransactionDataView)
    ensures
        value is Integer || value is String ==> decoded(encoded(value)) == Some(value),
        value matches TransactionDataView::Decimal(d) ==> (decoded(encoded(value)) == Some(value)
            <==> reads_back(d)),
{
    match value {
        TransactionDataView::Integer(v) => {
            lemma_integer_text_reads_back(v);
        },
        TransactionDataView::String(_) => {},
        TransactionDataView::Decimal(_) => {},
    }
}

} // verus!
