//! Card transactions of a merchant: POS terminals and payment gateways.

use crate::types::decimal::Decimal;
use vstd::prelude::*;

verus! {

/// Merchant statement response wrapper
#[derive(Debug, Clone, PartialEq)]
pub struct MerchantStatement {
    /// Account and period info
    pub info: MerchantInfo,
    /// Transaction list
    pub transaction_list: MerchantTransactionList,
}

/// Merchant account info
#[derive(Debug, Clone, PartialEq, Eq)]
pub struct MerchantInfo {
    /// Account ID
    pub account_id: String,
    /// Bank ID (4 digit BBAN code)
    pub bank_id: String,
    /// Currency (ISO 4217)
    pub currency: String,
    /// IBAN
    pub iban: String,
    /// BIC (ISO 9362)
    pub bic: String,
    /// Start of selected period
    pub date_start: String,
    /// End of selected period
    pub date_end: String,
}

/// Merchant transaction list
#[derive(Debug, Clone, PartialEq)]
pub struct MerchantTransactionList {
    /// Card transactions
    pub transaction: Vec<MerchantTransaction>,
}

/// Single merchant card transaction
#[derive(Debug, Clone, PartialEq)]
pub struct MerchantTransaction {
    /// Unique operation ID
    pub operation_id: i64,
    /// Unique order ID
    pub order_id: i64,
    /// Date of settlement
    pub date: String,
    /// Batch settlement amount
    pub amount: Decimal,
    /// Note / description
    pub note: Option<String>,
    /// Branch name
    pub branch_name: Option<String>,
    /// Transaction identifier
    pub transaction_id: Option<String>,
    /// Device ID (terminal/gateway identifier)
    pub device_id: Option<String>,
    /// Transaction date/time
    pub transaction_date_time: Option<String>,
    /// Authorization number
    pub autorization_number: Option<String>,
    /// Card number (masked)
    pub card_number: Option<String>,
    /// Individual transaction amount
    pub transaction_amount: Option<Decimal>,
    /// Transaction currency (ISO 4217)
    pub transaction_currency: Option<String>,
    /// Transaction type (ON_US = Fio card, DOMESTIC = Czech card, FOREIGN = foreign card)
    pub transaction_type: Option<String>,
    /// Card issuer (e.g. MASTERCARD, VISA)
    pub card_issuer: Option<String>,
    /// Total fees
    pub total_fees: Option<Decimal>,
    /// Fio bank fee
    pub fio_fee: Option<Decimal>,
    /// Interchange fee
    pub interchange_fee: Option<Decimal>,
    /// Card association fee (the API spells the member "asosiation")
    pub card_asosiation_fee: Option<Decimal>,
    /// Flexible commission / card issuer fee
    pub flexible_commission: Option<Decimal>,
    /// Settlement status
    pub settlement: Option<bool>,
    /// Settlement date
    pub settlement_date: Option<String>,
    /// Variable symbol
    pub vs: Option<String>,
}

} // verus!
