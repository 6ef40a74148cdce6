//! Payment orders and the import batch that carries them.

pub mod xml;

use crate::types::decimal::Decimal;
use crate::text::text_equals;
use vstd::prelude::*;
use vstd::string::StringExecFns;

verus! {

/// Who pays the charges of a foreign payment.
#[derive(Debug, Eq, PartialEq, Clone, Copy, Structural)]
pub enum DetailsOfCharges {
    /// All charges paid by the sender (OUR).
    Sender,
    /// All charges paid by the receiver (BEN).
    Receiver,
    /// Each party pays its own charges (SHA).
    Shared,
}

impl DetailsOfCharges {
    /// The bank's numeric code for this value.
    pub open spec fn code(self) -> Seq<char> {
        match self {
            Self::Sender => "470501"@,
            Self::Receiver => "470502"@,
            Self::Shared => "470503"@,
        }
    }

    /// The bank's numeric code for this value.
    pub fn as_str(&self) -> (s: &'static str)
        ensures
            s@ == self.code(),
    {
        match self {
            Self::Sender => "470501",
            Self::Receiver => "470502",
            Self::Shared => "470503",
        }
    }

    /// The code as an owned string.
    pub fn to_string(&self) -> (s: String)
        ensures
            s@ == self.code(),
    {
        String::from_str(self.as_str())
    }

    /// The value that `code` names, if it names one.
    pub open spec fn parsed_code(code: Seq<char>) -> Option<DetailsOfCharges> {
        if code == "470501"@ {
            Some(Self::Sender)
        } else if code == "470502"@ {
            Some(Self::Receiver)
        } else if code == "470503"@ {
            Some(Self::Shared)
        } else {
            None
        }
    }

    /// Reads the bank's numeric code.
    pub fn from_code(code: &str) -> (r: Option<DetailsOfCharges>)
        ensures
            r == Self::parsed_code(code@),
    {
        if text_equals(code, "470501") {
            Some(Self::Sender)
        } else if text_equals(code, "470502") {
            Some(Self::Receiver)
        } else if text_equals(code, "470503") {
            Some(Self::Shared)
        } else {
            None
        }
    }

    /// Reading the code of a value gives the value back.
    pub proof fn lemma_code_reads_back(self)
        ensures
            Self::parsed_code(self.code()) == Some(self),
    {
        reveal_strlit("470501");
        reveal_strlit("470502");
        reveal_strlit("470503");
        assert("470501"@[4] == '0' && "470501"@[5] == '1');
        assert("470502"@[4] == '0' && "470502"@[5] == '2');
        assert("470503"@[4] == '0' && "470503"@[5] == '3');
    }
}

/// Payment type of a domestic order.
#[derive(Debug, Eq, PartialEq, Clone, Copy, Structural)]
pub enum DomesticPaymentType {
    /// Standard payment.
    Standard,
    /// Priority payment.
    Priority,
    /// Direct debit order.
    DirectDebit,
}

impl DomesticPaymentType {
    /// The bank's numeric code for this value.
    pub open spec fn code(self) -> Seq<char> {
        match self {
            Self::Standard => "431001"@,
            Self::Priority => "431005"@,
            Self::DirectDebit => "431022"@,
        }
    }

    /// The bank's numeric code for this value.
    pub fn as_str(&self) -> (s: &'static str)
        ensures
            s@ == self.code(),
    {
        match self {
            Self::Standard => "431001",
            Self::Priority => "431005",
            Self::DirectDebit => "431022",
        }
    }

    /// The code as an owned string.
    pub fn to_string(&self) -> (s: String)
        ensures
            s@ == self.code(),
    {
        String::from_str(self.as_str())
    }

    /// The value that `code` names, if it names one.
    pub open spec fn parsed_code(code: Seq<char>) -> Option<DomesticPaymentType> {
        if code == "431001"@ {
            Some(Self::Standard)
        } else if code == "431005"@ {
            Some(Self::Priority)
        } else if code == "431022"@ {
            Some(Self::DirectDebit)
        } else {
            None
        }
    }

    /// Reads the bank's numeric code.
    pub fn from_code(code: &str) -> (r: Option<DomesticPaymentType>)
        ensures
            r == Self::parsed_code(code@),
    {
        if text_equals(code, "431001") {
            Some(Self::Standard)
        } else if text_equals(code, "431005") {
            Some(Self::Priority)
        } else if text_equals(code, "431022") {
            Some(Self::DirectDebit)
        } else {
            None
        }
    }

    /// Reading the code of a value gives the value back.
    pub proof fn lemma_code_reads_back(self)
        ensures
            Self::parsed_code(self.code()) == Some(self),
    {
        reveal_strlit("431001");
        reveal_strlit("431005");
        reveal_strlit("431022");
        assert("431001"@[4] == '0' && "431001"@[5] == '1');
        assert("431005"@[4] == '0' && "431005"@[5] == '5');
        assert("431022"@[4] == '2' && "431022"@[5] == '2');
    }
}

/// Payment type of a euro (T2) order.
#[derive(Debug, Eq, PartialEq, Clone, Copy, Structural)]
pub enum EuroPaymentType {
    /// Standard payment.
    Standard,
    /// Priority payment.
    Priority,
    /// Instant payment.
    Instant,
}

impl EuroPaymentType {
    /// The bank's numeric code for this value.
    pub open spec fn code(self) -> Seq<char> {
        match self {
            Self::Standard => "431008"@,
            Self::Priority => "431009"@,
            Self::Instant => "431018"@,
        }
    }

    /// The bank's numeric code for this value.
    pub fn as_str(&self) -> (s: &'static str)
        ensures
            s@ == self.code(),
    {
        match self {
            Self::Standard => "431008",
            Self::Priority => "431009",
            Self::Instant => "431018",
        }
    }

    /// The code as an owned string.
    pub fn to_string(&self) -> (s: String)
        ensures
            s@ == self.code(),
    {
        String::from_str(self.as_str())
    }

    /// The value that `code` names, if it names one.
    pub open spec fn parsed_code(code: Seq<char>) -> Option<EuroPaymentType> {
        if code == "431008"@ {
            Some(Self::Standard)
        } else if code == "431009"@ {
            Some(Self::Priority)
        } else if code == "431018"@ {
            Some(Self::Instant)
        } else {
            None
        }
    }

    /// Reads the bank's numeric code.
    pub fn from_code(code: &str) -> (r: Option<EuroPaymentType>)
        ensures
            r == Self::parsed_code(code@),
    {
        if text_equals(code, "431008") {
            Some(Self::Standard)
        } else if text_equals(code, "431009") {
            Some(Self::Priority)
        } else if text_equals(code, "431018") {
            Some(Self::Instant)
        } else {
            None
        }
    }

    /// Reading the code of a value gives the value back.
    pub proof fn lemma_code_reads_back(self)
        ensures
            Self::parsed_code(self.code()) == Some(self),
    {
        reveal_strlit("431008");
        reveal_strlit("431009");
        reveal_strlit("431018");
        assert("431008"@[4] == '0' && "431008"@[5] == '8');
        assert("431009"@[4] == '0' && "431009"@[5] == '9');
        assert("431018"@[4] == '1' && "431018"@[5] == '8');
    }
}

/// A payment within the Czech Republic.
#[derive(Debug, Eq, PartialEq, Clone)]
pub struct DomesticTransaction {
    /// Account from
    pub account_from: String,
    /// Currency
    pub currency: String,
    /// Amount
    pub amount: Decimal,
    /// Account to
    pub account_to: String,
    /// Bank code
    pub bank_code: String,
    /// Constant symbol
    pub ks: Option<String>,
    /// Variable symbol
    pub vs: Option<String>,
    /// Specific symbol
    pub ss: Option<String>,
    /// Date of transaction
    pub date: String,
    /// Message for recipient
    pub message_for_recipient: Option<String>,
    /// Comment
    pub comment: Option<String>,
    /// Payment reason
    pub payment_reason: Option<String>,
    /// Payment type
    pub payment_type: Option<DomesticPaymentType>,
}

/// A euro (T2) payment.
#[derive(Debug, Eq, PartialEq, Clone)]
pub struct T2Transaction {
    /// Account from
    pub account_from: String,
    /// Currency
    pub currency: String,
    /// Amount
    pub amount: Decimal,
    /// Account to
    pub account_to: String,
    /// BIC
    pub bic: Option<String>,
    /// Constant symbol
    pub ks: Option<String>,
    /// Variable symbol
    pub vs: Option<String>,
    /// Specific symbol
    pub ss: Option<String>,
    /// Date of transaction
    pub date: String,
    /// Beneficiary name
    pub benef_name: String,
    /// Beneficiary street
    pub benef_street: Option<String>,
    /// Beneficiary city
    pub benef_city: Option<String>,
    /// Beneficiary country
    pub benef_country: Option<String>,
    /// Remittance info 1
    pub remittance_info1: Option<String>,
    /// Remittance info 2
    pub remittance_info2: Option<String>,
    /// Remittance info 3
    pub remittance_info3: Option<String>,
    /// Comment
    pub comment: Option<String>,
    /// Payment reason
    pub payment_reason: Option<String>,
    /// Payment type
    pub payment_type: Option<EuroPaymentType>,
}

/// A payment abroad.
#[derive(Debug, Eq, PartialEq, Clone)]
pub struct ForeignTransaction {
    /// Account from
    pub account_from: String,
    /// Currency
    pub currency: String,
    /// Amount
    pub amount: Decimal,
    /// Account to
    pub account_to: String,
    /// BIC
    pub bic: String,
    /// Date of transaction
    pub date: String,
    /// Beneficiary name
    pub benef_name: String,
    /// Beneficiary street
    pub benef_street: String,
    /// Beneficiary city
    pub benef_city: String,
    /// Beneficiary country
    pub benef_country: String,
    /// Remittance info 1
    pub remittance_info1: String,
    /// Remittance info 2
    pub remittance_info2: Option<String>,
    /// Remittance info 3
    pub remittance_info3: Option<String>,
    /// Remittance info 4
    pub remittance_info4: Option<String>,
    /// Comment
    pub comment: Option<String>,
    /// Payment reason
    pub payment_reason: String,
    /// Details of charges
    pub details_of_charges: DetailsOfCharges,
}

/// One payment order of any kind.
#[derive(Debug, Eq, PartialEq, Clone)]
pub enum Type {
    /// Domestic transaction
    Domestic(DomesticTransaction),
    /// Euro transaction
    Euro(T2Transaction),
    /// Foreign transaction
    Foreign(ForeignTransaction),
}

/// A batch of payment orders.
#[derive(Debug, Eq, PartialEq)]
pub struct Import {
    /// List of transaction orders
    pub orders: Vec<Type>,
}

impl Import {
    /// An empty batch.
    pub fn new() -> (import: Import)
        ensures
            import.orders@ == Seq::<Type>::empty(),
    {
        Import { orders: Vec::new() }
    }

    /// A builder with nothing buffered.
    pub fn builder() -> (builder: ImportBuilder)
        ensures
            builder.pending_domestic() == Seq::<DomesticTransaction>::empty(),
            builder.pending_euro() == Seq::<T2Transaction>::empty(),
            builder.pending_foreign() == Seq::<ForeignTransaction>::empty(),
    {
        ImportBuilder::new()
    }
}

impl Default for Import {
    fn default() -> (import: Import)
        ensures
            import.orders@ == Seq::<Type>::empty(),
    {
        Import::new()
    }
}

/// Collects orders by kind and hands them out grouped.
pub struct ImportBuilder {
    domestic: Vec<DomesticTransaction>,
    euro: Vec<T2Transaction>,
    foreign: Vec<ForeignTransaction>,
}

/// The domestic orders `items`, each wrapped as a [`Type`].
pub open spec fn wrap_domestic(items: Seq<DomesticTransaction>) -> Seq<Type> {
    Seq::new(items.len(), |i: int| Type::Domestic(items[i]))
}

/// The euro orders `items`, each wrapped as a [`Type`].
pub open spec fn wrap_euro(items: Seq<T2Transaction>) -> Seq<Type> {
    Seq::new(items.len(), |i: int| Type::Euro(items[i]))
}

/// The foreign orders `items`, each wrapped as a [`Type`].
pub open spec fn wrap_foreign(items: Seq<ForeignTransaction>) -> Seq<Type> {
    Seq::new(items.len(), |i: int| Type::Foreign(items[i]))
}

/// The orders of a batch built from the three buffers: domestic first, then
/// euro, then foreign, each group in the order of insertion.
pub open spec fn grouped(
    domestic: Seq<DomesticTransaction>,
    euro: Seq<T2Transaction>,
    foreign: Seq<ForeignTransaction>,
) -> Seq<Type> {
    wrap_domestic(domestic) + wrap_euro(euro) + wrap_foreign(foreign)
}

impl ImportBuilder {
    /// The domestic orders buffered so far, oldest first.
    pub closed spec fn pending_domestic(&self) -> Seq<DomesticTransaction> {
        self.domestic@
    }

    /// The euro orders buffered so far, oldest first.
    pub closed spec fn pending_euro(&self) -> Seq<T2Transaction> {
        self.euro@
    }

    /// The foreign orders buffered so far, oldest first.
    pub closed spec fn pending_foreign(&self) -> Seq<ForeignTransaction> {
        self.foreign@
    }

    /// A builder with nothing buffered.
    pub fn new() -> (builder: ImportBuilder)
        ensures
            builder.pending_domestic() == Seq::<DomesticTransaction>::empty(),
            builder.pending_euro() == Seq::<T2Transaction>::empty(),
            builder.pending_foreign() == Seq::<ForeignTransaction>::empty(),
    {
        ImportBuilder { domestic: Vec::new(), euro: Vec::new(), foreign: Vec::new() }
    }

    /// Buffers a domestic order.
    pub fn domestic(&mut self, transaction: DomesticTransaction) -> (builder: &mut Self)
        ensures
            builder.pending_domestic() == old(self).pending_domestic().push(transaction),
            builder.pending_euro() == old(self).pending_euro(),
            builder.pending_foreign() == old(self).pending_foreign(),
            *final(self) == *final(builder),
    {
        self.domestic.push(transaction);
        self
    }

    /// Buffers a euro order.
    pub fn euro(&mut self, transaction: T2Transaction) -> (builder: &mut Self)
        ensures
            builder.pending_domestic() == old(self).pending_domestic(),
            builder.pending_euro() == old(self).pending_euro().push(transaction),
            builder.pending_foreign() == old(self).pending_foreign(),
            *final(self) == *final(builder),
    {
        self.euro.push(transaction);
        self
    }

    /// Buffers a foreign order.
    pub fn foreign(&mut self, transaction: ForeignTransaction) -> (builder: &mut Self)
        ensures
            builder.pending_domestic() == old(self).pending_domestic(),
            builder.pending_euro() == old(self).pending_euro(),
            builder.pending_foreign() == old(self).pending_foreign().push(transaction),
            *final(self) == *final(builder),
    {
        self.foreign.push(transaction);
        self
    }

    /// Hands out everything buffered as one batch, grouped by kind, and
    /// leaves the builder empty.
    pub fn build(&mut self) -> (import: Import)
        ensures
            import.orders@ == grouped(
                old(self).pending_domestic(),
                old(self).pending_euro(),
                old(self).pending_foreign(),
            ),
            final(self).pending_domestic() == Seq::<DomesticTransaction>::empty(),
            final(self).pending_euro() == Seq::<T2Transaction>::empty(),
            final(self).pending_foreign() == Seq::<ForeignTransaction>::empty(),
    {
        let mut domestic: Vec<DomesticTransaction> = Vec::new();
        let mut euro: Vec<T2Transaction> = Vec::new();
        let mut foreign: Vec<ForeignTransaction> = Vec::new();
        core::mem::swap(&mut self.domestic, &mut domestic);
        core::mem::swap(&mut self.euro, &mut euro);
        core::mem::swap(&mut self.foreign, &mut foreign);
        let ghost d = domestic@;
        let ghost e = euro@;
        let ghost f = foreign@;
        let mut import = Import::new();
        for t in it: domestic.into_iter()
            invariant
                it.seq() == d,
                import.orders@ == wrap_domestic(d.take(it.index())),
        {
            import.orders.push(Type::Domestic(t));
            assert(import.orders@ =~= wrap_domestic(d.take(it.index() + 1)));
        }
        assert(import.orders@ =~= wrap_domestic(d));
        for t in it: euro.into_iter()
            invariant
                it.seq() == e,
                import.orders@ == wrap_domestic(d) + wrap_euro(e.take(it.index())),
        {
            import.orders.push(Type::Euro(t));
            assert(import.orders@ =~= wrap_domestic(d) + wrap_euro(e.take(it.index() + 1)));
        }
        assert(import.orders@ =~= wrap_domestic(d) + wrap_euro(e));
        for t in it: foreign.into_iter()
            invariant
                it.seq() == f,
                import.orders@ == wrap_domestic(d) + wrap_euro(e) + wrap_foreign(
                    f.take(it.index()),
                ),
        {
            import.orders.push(Type::Foreign(t));
            assert(import.orders@ =~= wrap_domestic(d) + wrap_euro(e) + wrap_foreign(
                f.take(it.index() + 1),
            ));
        }
        assert(import.orders@ =~= grouped(d, e, f));
        import
    }
}

impl Default for ImportBuilder {
    fn default() -> (builder: ImportBuilder)
        ensures
            builder.pending_domestic() == Seq::<DomesticTransaction>::empty(),
            builder.pending_euro() == Seq::<T2Transaction>::empty(),
            builder.pending_foreign() == Seq::<ForeignTransaction>::empty(),
    {
        ImportBuilder::new()
    }
}

} // verus!
