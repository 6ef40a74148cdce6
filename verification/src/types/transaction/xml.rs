//! The XML document that carries an import batch to the bank.

use crate::types::transaction::{
    grouped, wrap_domestic, wrap_euro, wrap_foreign, DomesticTransaction, ForeignTransaction,
    Import, T2Transaction, Type,
};
use vstd::prelude::*;
use vstd::string::StringExecFns;

verus! {

/// An element `<name>text</name>`. The text is written as it is, unescaped.
pub open spec fn element(name: Seq<char>, text: Seq<char>) -> Seq<char> {
    "<"@ + name + ">"@ + text + "</"@ + name + ">"@
}

/// An element for a value that is present, nothing for one that is absent.
pub open spec fn optional_element(name: Seq<char>, value: Option<String>) -> Seq<char> {
    match value {
        Some(text) => element(name, text@),
        None => Seq::empty(),
    }
}

/// Appends `<name>text</name>` to `out`.
fn push_element(out: &mut String, name: &str, text: &str)
    ensures
        final(out)@ == old(out)@ + element(name@, text@),
{
    out.append("<");
    out.append(name);
    out.append(">");
    out.append(text);
    out.append("</");
    out.append(name);
    out.append(">");
    assert(out@ =~= old(out)@ + element(name@, text@));
}

/// Appends the element for `value` to `out` where it is present.
fn push_optional(out: &mut String, name: &str, value: &Option<String>)
    ensures
        final(out)@ == old(out)@ + optional_element(name@, *value),
{
    match value {
        Some(text) => {
            push_element(out, name, text.as_str());
        },
        None => {
            assert(out@ =~= old(out)@ + Seq::<char>::empty());
        },
    }
}

/// The element of one domestic order whose amount prints as `amount`: its fields
/// in declaration order, absent ones left out.
///
/// Opaque, to keep proofs about whole documents small: `reveal` it to see
/// the fields.
#[verifier::opaque]
pub open spec fn domestic_element(t: DomesticTransaction, amount: Seq<char>) -> Seq<char> {
    "<DomesticTransaction>"@
        + element("accountFrom"@, t.account_from@)
        + element("currency"@, t.currency@)
        + element("amount"@, amount)
        + element("accountTo"@, t.account_to@)
        + element("bankCode"@, t.bank_code@)
        + optional_element("ks"@, t.ks)
        + optional_element("vs"@, t.vs)
        + optional_element("ss"@, t.ss)
        + element("date"@, t.date@)
        + optional_element("messageForRecipient"@, t.message_for_recipient)
        + optional_element("comment"@, t.comment)
        + optional_element("paymentReason"@, t.payment_reason)
        + (match t.payment_type {
            Some(payment_type) => element("paymentType"@, payment_type.code()),
            None => Seq::empty(),
        })
        + "</DomesticTransaction>"@
}

/// The element of one domestic order.
pub open spec fn domestic_xml(t: DomesticTransaction) -> Seq<char> {
    domestic_element(t, t.amount.text())
}

/// Renders the element of one domestic order whose amount prints as `amount`.
pub fn render_domestic(t: &DomesticTransaction, amount: &str) -> (order: String)
    ensures
        order@ == domestic_element(*t, amount@),
{
    reveal(domestic_element);
    let mut order = String::from_str("<DomesticTransaction>");
    push_element(&mut order, "accountFrom", t.account_from.as_str());
    push_element(&mut order, "currency", t.currency.as_str());
    push_element(&mut order, "amount", amount);
    push_element(&mut order, "accountTo", t.account_to.as_str());
    push_element(&mut order, "bankCode", t.bank_code.as_str());
    push_optional(&mut order, "ks", &t.ks);
    push_optional(&mut order, "vs", &t.vs);
    push_optional(&mut order, "ss", &t.ss);
    push_element(&mut order, "date", t.date.as_str());
    push_optional(&mut order, "messageForRecipient", &t.message_for_recipient);
    push_optional(&mut order, "comment", &t.comment);
    push_optional(&mut order, "paymentReason", &t.payment_reason);
    match &t.payment_type {
        Some(payment_type) => {
            push_element(&mut order, "paymentType", payment_type.as_str());
        },
        None => {
            assert(order@ =~= order@ + Seq::<char>::empty());
        },
    }
    order.append("</DomesticTransaction>");
    order
}

/// Appends the element of one domestic order to `result`.
pub fn convert_domestic(result: &mut String, t: &DomesticTransaction)
    ensures
        final(result)@ == old(result)@ + domestic_xml(*t),
{
    let amount = t.amount.to_string();
    let order = render_domestic(t, amount.as_str());
    result.append(order.as_str());
}

/// The element of one euro order whose amount prints as `amount`: its fields
/// in declaration order, absent ones left out.
///
/// Opaque, to keep proofs about whole documents small: `reveal` it to see
/// the fields.
#[verifier::opaque]
pub open spec fn euro_element(t: T2Transaction, amount: Seq<char>) -> Seq<char> {
    "<T2Transaction>"@
        + element("accountFrom"@, t.account_from@)
        + element("currency"@, t.currency@)
        + element("amount"@, amount)
        + element("accountTo"@, t.account_to@)
        + optional_element("bic"@, t.bic)
        + optional_element("ks"@, t.ks)
        + optional_element("vs"@, t.vs)
        + optional_element("ss"@, t.ss)
        + element("date"@, t.date@)
        + element("benefName"@, t.benef_name@)
        + optional_element("benefStreet"@, t.benef_street)
        + optional_element("benefCity"@, t.benef_city)
        + optional_element("benefCountry"@, t.benef_country)
        + optional_element("remittanceInfo1"@, t.remittance_info1)
        + optional_element("remittanceInfo2"@, t.remittance_info2)
        + optional_element("remittanceInfo3"@, t.remittance_info3)
        + optional_element("comment"@, t.comment)
        + optional_element("paymentReason"@, t.payment_reason)
        + (match t.payment_type {
            Some(payment_type) => element("paymentType"@, payment_type.code()),
            None => Seq::empty(),
        })
        + "</T2Transaction>"@
}

/// The element of one euro order.
pub open spec fn euro_xml(t: T2Transaction) -> Seq<char> {
    euro_element(t, t.amount.text())
}

/// Renders the element of one euro order whose amount prints as `amount`.
pub fn render_euro(t: &T2Transaction, amount: &str) -> (order: String)
    ensures
        order@ == euro_element(*t, amount@),
{
    reveal(euro_element);
    let mut order = String::from_str("<T2Transaction>");
    push_element(&mut order, "accountFrom", t.account_from.as_str());
    push_element(&mut order, "currency", t.currency.as_str());
    push_element(&mut order, "amount", amount);
    push_element(&mut order, "accountTo", t.account_to.as_str());
    push_optional(&mut order, "bic", &t.bic);
    push_optional(&mut order, "ks", &t.ks);
    push_optional(&mut order, "vs", &t.vs);
    push_optional(&mut order, "ss", &t.ss);
    push_element(&mut order, "date", t.date.as_str());
    push_element(&mut order, "benefName", t.benef_name.as_str());
    push_optional(&mut order, "benefStreet", &t.benef_street);
    push_optional(&mut order, "benefCity", &t.benef_city);
    push_optional(&mut order, "benefCountry", &t.benef_country);
    push_optional(&mut order, "remittanceInfo1", &t.remittance_info1);
    push_optional(&mut order, "remittanceInfo2", &t.remittance_info2);
    push_optional(&mut order, "remittanceInfo3", &t.remittance_info3);
    push_optional(&mut order, "comment", &t.comment);
    push_optional(&mut order, "paymentReason", &t.payment_reason);
    match &t.payment_type {
        Some(payment_type) => {
            push_element(&mut order, "paymentType", payment_type.as_str());
        },
        None => {
            assert(order@ =~= order@ + Seq::<char>::empty());
        },
    }
    order.append("</T2Transaction>");
    order
}

/// Appends the element of one euro order to `result`.
pub fn convert_euro(result: &mut String, t: &T2Transaction)
    ensures
        final(result)@ == old(result)@ + euro_xml(*t),
{
    let amount = t.amount.to_string();
    let order = render_euro(t, amount.as_str());
    result.append(order.as_str());
}

/// The element of one foreign order whose amount prints as `amount`: its fields
/// in declaration order, absent ones left out.
///
/// Opaque, to keep proofs about whole documents small: `reveal` it to see
/// the fields.
#[verifier::opaque]
pub open spec fn foreign_element(t: ForeignTransaction, amount: Seq<char>) -> Seq<char> {
    "<ForeignTransaction>"@
        + element("accountFrom"@, t.account_from@)
        + element("currency"@, t.currency@)
        + element("amount"@, amount)
        + element("accountTo"@, t.account_to@)
        + element("bic"@, t.bic@)
        + element("date"@, t.date@)
        + element("benefName"@, t.benef_name@)
        + element("benefStreet"@, t.benef_street@)
        + element("benefCity"@, t.benef_city@)
        + element("benefCountry"@, t.benef_country@)
        + element("remittanceInfo1"@, t.remittance_info1@)
        + optional_element("remittanceInfo2"@, t.remittance_info2)
        + optional_element("remittanceInfo3"@, t.remittance_info3)
        + optional_element("remittanceInfo4"@, t.remittance_info4)
        + optional_element("comment"@, t.comment)
        + element("paymentReason"@, t.payment_reason@)
        + element("detailsOfCharges"@, t.details_of_charges.code())
        + "</ForeignTransaction>"@
}

/// The element of one foreign order.
pub open spec fn foreign_xml(t: ForeignTransaction) -> Seq<char> {
    foreign_element(t, t.amount.text())
}

/// Renders the element of one foreign order whose amount prints as `amount`.
pub fn render_foreign(t: &ForeignTransaction, amount: &str) -> (order: String)
    ensures
        order@ == foreign_element(*t, amount@),
{
    reveal(foreign_element);
    let mut order = String::from_str("<ForeignTransaction>");
    push_element(&mut order, "accountFrom", t.account_from.as_str());
    push_element(&mut order, "currency", t.currency.as_str());
    push_element(&mut order, "amount", amount);
    push_element(&mut order, "accountTo", t.account_to.as_str());
    push_element(&mut order, "bic", t.bic.as_str());
    push_element(&mut order, "date", t.date.as_str());
    push_element(&mut order, "benefName", t.benef_name.as_str());
    push_element(&mut order, "benefStreet", t.benef_street.as_str());
    push_element(&mut order, "benefCity", t.benef_city.as_str());
    push_element(&mut order, "benefCountry", t.benef_country.as_str());
    push_element(&mut order, "remittanceInfo1", t.remittance_info1.as_str());
    push_optional(&mut order, "remittanceInfo2", &t.remittance_info2);
    push_optional(&mut order, "remittanceInfo3", &t.remittance_info3);
    push_optional(&mut order, "remittanceInfo4", &t.remittance_info4);
    push_optional(&mut order, "comment", &t.comment);
    push_element(&mut order, "paymentReason", t.payment_reason.as_str());
    push_element(&mut order, "detailsOfCharges", t.details_of_charges.as_str());
    order.append("</ForeignTransaction>");
    order
}

/// Appends the element of one foreign order to `result`.
pub fn convert_foreign(result: &mut String, t: &ForeignTransaction)
    ensures
        final(result)@ == old(result)@ + foreign_xml(*t),
{
    let amount = t.amount.to_string();
    let order = render_foreign(t, amount.as_str());
    result.append(order.as_str());
}

/// The three kinds of order, in the sequence of their blocks.
#[derive(Debug, Clone, Copy, PartialEq, Eq, Structural)]
pub enum Kind {
    /// Payments within the country.
    Domestic,
    /// Euro (T2) payments.
    Euro,
    /// Payments abroad.
    Foreign,
}

/// What `order` adds to the block of `kind`: its element where it is of that
/// kind, nothing otherwise.
pub open spec fn part(kind: Kind, order: Type) -> Seq<char> {
    match (kind, order) {
        (Kind::Domestic, Type::Domestic(t)) => domestic_xml(t),
        (Kind::Euro, Type::Euro(t)) => euro_xml(t),
        (Kind::Foreign, Type::Foreign(t)) => foreign_xml(t),
        _ => Seq::empty(),
    }
}

/// The elements of the orders of `kind` among `orders`, in their order.
pub open spec fn block(kind: Kind, orders: Seq<Type>) -> Seq<char>
    decreases orders.len(),
{
    if orders.len() == 0 {
        Seq::empty()
    } else {
        block(kind, orders.drop_last()) + part(kind, orders.last())
    }
}

/// What stands before the orders: the prolog, the root element with its
/// schema location, and the opening of `<Orders>`.
pub open spec fn document_head() -> Seq<char> {
    "<?xml version=\"1.0\" encoding=\"UTF-8\"?>"@
        + "<Import xmlns:xsi=\"http://www.w3.org/2001/XMLSchema-instance\" xsi:noNamespaceSchemaLocation=\"http://www.fio.cz/schema/importIB.xsd\">"@
        + "<Orders>"@
}

/// The whole document: the head, then inside `<Orders>` the domestic orders
/// first, then the euro orders, then the foreign orders, then the closing
/// tags.
pub open spec fn import_xml(orders: Seq<Type>) -> Seq<char> {
    document_head()
        + block(Kind::Domestic, orders)
        + block(Kind::Euro, orders)
        + block(Kind::Foreign, orders)
        + "</Orders>"@
        + "</Import>"@
}

/// Appends the element of `order` to `result` where it is of `kind`.
fn convert(result: &mut String, kind: Kind, order: &Type)
    ensures
        final(result)@ == old(result)@ + part(kind, *order),
{
    match (kind, order) {
        (Kind::Domestic, Type::Domestic(t)) => convert_domestic(result, t),
        (Kind::Euro, Type::Euro(t)) => convert_euro(result, t),
        (Kind::Foreign, Type::Foreign(t)) => convert_foreign(result, t),
        _ => {
            assert(result@ =~= result@ + Seq::<char>::empty());
        },
    }
}

/// Renders the orders of `kind` among `orders`.
fn render(kind: Kind, orders: &Vec<Type>) -> (rendered: String)
    ensures
        rendered@ == block(kind, orders@),
{
    let mut rendered = String::new();
    let mut i: usize = 0;
    while i < orders.len()
        invariant
            i <= orders.len(),
            rendered@ == block(kind, orders@.take(i as int)),
        decreases orders.len() - i,
    {
        proof {
            assert(orders@.take(i + 1).drop_last() =~= orders@.take(i as int));
        }
        convert(&mut rendered, kind, &orders[i]);
        i += 1;
    }
    proof {
        assert(orders@.take(i as int) =~= orders@);
    }
    rendered
}

impl Import {
    /// Renders the batch as the XML document that the bank accepts.
    pub fn to_xml(&self) -> (xml: String)
        ensures
            xml@ == import_xml(self.orders@),
    {
        let domestic = render(Kind::Domestic, &self.orders);
        let euro = render(Kind::Euro, &self.orders);
        let foreign = render(Kind::Foreign, &self.orders);
        let mut result = String::from_str("<?xml version=\"1.0\" encoding=\"UTF-8\"?>");
        result.append("<Import xmlns:xsi=\"http://www.w3.org/2001/XMLSchema-instance\" xsi:noNamespaceSchemaLocation=\"http://www.fio.cz/schema/importIB.xsd\">");
        result.append("<Orders>");
        result.append(domestic.as_str());
        result.append(euro.as_str());
        result.append(foreign.as_str());
        result.append("</Orders>");
        result.append("</Import>");
        result
    }
}

/// The kind of `order`.
pub open spec fn kind_of(order: Type) -> Kind {
    match order {
        Type::Domestic(_) => Kind::Domestic,
        Type::Euro(_) => Kind::Euro,
        Type::Foreign(_) => Kind::Foreign,
    }
}

/// The block of a concatenation is the concatenation of the blocks.
pub proof fn lemma_block_concat(kind: Kind, a: Seq<Type>, b: Seq<Type>)
    ensures
        block(kind, a + b) == block(kind, a) + block(kind, b),
    decreases b.len(),
{
    if b.len() == 0 {
        assert(a + b =~= a);
        assert(block(kind, a) + block(kind, b) =~= block(kind, a));
    } else {
        lemma_block_concat(kind, a, b.drop_last());
        assert((a + b).drop_last() =~= a + b.drop_last());
        assert((a + b).last() == b.last());
        assert((block(kind, a) + block(kind, b.drop_last())) + part(kind, b.last()) =~= block(
            kind,
            a,
        ) + (block(kind, b.drop_last()) + part(kind, b.last())));
    }
}

/// Orders of other kinds add nothing to a block.
pub proof fn lemma_block_of_other_kinds(kind: Kind, orders: Seq<Type>)
    requires
        forall|i: int| 0 <= i < orders.len() ==> kind_of(#[trigger] orders[i]) != kind,
    ensures
        block(kind, orders) == Seq::<char>::empty(),
    decreases orders.len(),
{
    if orders.len() > 0 {
        lemma_block_of_other_kinds(kind, orders.drop_last());
        assert(kind_of(orders[orders.len() - 1]) != kind);
        assert(block(kind, orders.drop_last()) + part(kind, orders.last()) =~= Seq::<char>::empty());
    }
}

/// The block of three sequences in a row is the three blocks in a row.
pub proof fn lemma_block_of_three(kind: Kind, a: Seq<Type>, b: Seq<Type>, c: Seq<Type>)
    ensures
        block(kind, a + b + c) == block(kind, a) + block(kind, b) + block(kind, c),
{
    lemma_block_concat(kind, a + b, c);
    lemma_block_concat(kind, a, b);
}

/// A batch that the builder grouped renders, in each block, exactly the
/// buffer of that kind: the document does not depend on how insertions of
/// different kinds were interleaved.
pub proof fn lemma_grouped_xml(
    domestic: Seq<DomesticTransaction>,
    euro: Seq<T2Transaction>,
    foreign: Seq<ForeignTransaction>,
)
    ensures
        block(Kind::Domestic, grouped(domestic, euro, foreign)) == block(
            Kind::Domestic,
            wrap_domestic(domestic),
        ),
        block(Kind::Euro, grouped(domestic, euro, foreign)) == block(Kind::Euro, wrap_euro(euro)),
        block(Kind::Foreign, grouped(domestic, euro, foreign)) == block(
            Kind::Foreign,
            wrap_foreign(foreign),
        ),
        import_xml(grouped(domestic, euro, foreign)) == document_head()
            + block(Kind::Domestic, wrap_domestic(domestic))
            + block(Kind::Euro, wrap_euro(euro))
            + block(Kind::Foreign, wrap_foreign(foreign))
            + "</Orders>"@
            + "</Import>"@,
{
    let d = wrap_domestic(domestic);
    let e = wrap_euro(euro);
    let f = wrap_foreign(foreign);
    let empty = Seq::<char>::empty();
    lemma_block_of_three(Kind::Domestic, d, e, f);
    lemma_block_of_three(Kind::Euro, d, e, f);
    lemma_block_of_three(Kind::Foreign, d, e, f);
    lemma_block_of_other_kinds(Kind::Domestic, e);
    lemma_block_of_other_kinds(Kind::Domestic, f);
    lemma_block_of_other_kinds(Kind::Euro, d);
    lemma_block_of_other_kinds(Kind::Euro, f);
    lemma_block_of_other_kinds(Kind::Foreign, d);
    lemma_block_of_other_kinds(Kind::Foreign, e);
    assert(block(Kind::Domestic, d) + empty + empty =~= block(Kind::Domestic, d));
    assert(empty + block(Kind::Euro, e) + empty =~= block(Kind::Euro, e));
    assert(empty + empty + block(Kind::Foreign, f) =~= block(Kind::Foreign, f));
}

/// The block of two orders is what the first adds, then what the second adds.
pub proof fn lemma_block_of_pair(kind: Kind, x: Type, y: Type)
    ensures
        block(kind, seq![x, y]) == part(kind, x) + part(kind, y),
{
    let none = Seq::<Type>::empty();
    assert(seq![x, y].drop_last() =~= seq![x]);
    assert(seq![x].drop_last() =~= none);
    assert(block(kind, none) == Seq::<char>::empty());
    assert(block(kind, seq![x]) == block(kind, none) + part(kind, x));
    assert(block(kind, none) + part(kind, x) =~= part(kind, x));
}

/// Of two orders of different kinds, at most one adds to a given block, so
/// the two may change places.
pub proof fn lemma_parts_commute(kind: Kind, x: Type, y: Type)
    requires
        kind_of(x) != kind_of(y),
    ensures
        part(kind, x) + part(kind, y) == part(kind, y) + part(kind, x),
{
    let empty = Seq::<char>::empty();
    let a = part(kind, x);
    let b = part(kind, y);
    assert(a == empty || b == empty);
    if a == empty {
        assert(empty + b =~= b + empty);
    } else {
        assert(a + empty =~= empty + a);
    }
}

/// Two orders of different kinds give the same block in either sequence.
pub proof fn lemma_block_of_swapped_pair(kind: Kind, x: Type, y: Type)
    requires
        kind_of(x) != kind_of(y),
    ensures
        block(kind, seq![x, y]) == block(kind, seq![y, x]),
{
    lemma_block_of_pair(kind, x, y);
    lemma_block_of_pair(kind, y, x);
    lemma_parts_commute(kind, x, y);
}

/// Replacing a stretch of orders by one with the same block leaves the block
/// of the whole as it was.
pub proof fn lemma_block_of_replaced(
    kind: Kind,
    before: Seq<Type>,
    stretch: Seq<Type>,
    other: Seq<Type>,
    after: Seq<Type>,
)
    requires
        block(kind, stretch) == block(kind, other),
    ensures
        block(kind, before + stretch + after) == block(kind, before + other + after),
{
    lemma_block_of_three(kind, before, stretch, after);
    lemma_block_of_three(kind, before, other, after);
}

/// Exchanging two neighbouring orders of different kinds leaves the document
/// as it was.
pub proof fn lemma_swap_of_different_kinds(before: Seq<Type>, x: Type, y: Type, after: Seq<Type>)
    requires
        kind_of(x) != kind_of(y),
    ensures
        import_xml(before + seq![x, y] + after) == import_xml(before + seq![y, x] + after),
{
    lemma_block_of_swapped_pair(Kind::Domestic, x, y);
    lemma_block_of_swapped_pair(Kind::Euro, x, y);
    lemma_block_of_swapped_pair(Kind::Foreign, x, y);
    lemma_block_of_replaced(Kind::Domestic, before, seq![x, y], seq![y, x], after);
    lemma_block_of_replaced(Kind::Euro, before, seq![x, y], seq![y, x], after);
    lemma_block_of_replaced(Kind::Foreign, before, seq![x, y], seq![y, x], after);
}

/// A batch without orders renders as the head and the closing tags, with
/// nothing between `<Orders>` and `</Orders>`.
pub proof fn lemma_empty_xml()
    ensures
        import_xml(Seq::<Type>::empty()) == document_head() + "</Orders>"@ + "</Import>"@,
{
    let empty = Seq::<char>::empty();
    assert(document_head() + empty + empty + empty =~= document_head());
}

/// A domestic order with every optional field unset renders its six required
/// fields and nothing else, whatever its amount prints as.
pub proof fn lemma_domestic_required_only(t: DomesticTransaction, amount: Seq<char>)
    requires
        t.ks is None,
        t.vs is None,
        t.ss is None,
        t.message_for_recipient is None,
        t.comment is None,
        t.payment_reason is None,
        t.payment_type is None,
    ensures
        domestic_element(t, amount) == "<DomesticTransaction>"@
            + element("accountFrom"@, t.account_from@)
            + element("currency"@, t.currency@)
            + element("amount"@, amount)
            + element("accountTo"@, t.account_to@)
            + element("bankCode"@, t.bank_code@)
            + element("date"@, t.date@)
            + "</DomesticTransaction>"@,
{
    reveal(domestic_element);
    let empty = Seq::<char>::empty();
    let five = "<DomesticTransaction>"@
        + element("accountFrom"@, t.account_from@)
        + element("currency"@, t.currency@)
        + element("amount"@, amount)
        + element("accountTo"@, t.account_to@)
        + element("bankCode"@, t.bank_code@);
    assert(five + empty + empty + empty =~= five);
    let six = five + element("date"@, t.date@);
    assert(six + empty + empty + empty + empty =~= six);
}

} // verus!
