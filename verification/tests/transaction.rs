use fiocz_rs::types::decimal::Decimal;
use fiocz_rs::types::transaction::{
    DetailsOfCharges, DomesticPaymentType, DomesticTransaction, EuroPaymentType,
    ForeignTransaction, Import, ImportBuilder, T2Transaction, Type,
};
use fiocz_rs::types::ExportFormat;

fn sample_domestic() -> DomesticTransaction {
    DomesticTransaction {
        account_from: "2345678901".to_string(),
        currency: "CZK".to_string(),
        amount: Decimal::new(10050, 2),
        account_to: "1234567890".to_string(),
        bank_code: "0800".to_string(),
        ks: None,
        vs: Some("1234567890".to_string()),
        ss: None,
        date: "2024-01-15".to_string(),
        message_for_recipient: Some("Test payment".to_string()),
        comment: None,
        payment_reason: None,
        payment_type: None,
    }
}

fn sample_euro() -> T2Transaction {
    T2Transaction {
        account_from: "CZ1234567890".to_string(),
        currency: "EUR".to_string(),
        amount: Decimal::new(5000, 2),
        account_to: "DE89370400440532013000".to_string(),
        bic: Some("COBADEFFXXX".to_string()),
        ks: None,
        vs: None,
        ss: None,
        date: "2024-02-01".to_string(),
        benef_name: "Test Recipient".to_string(),
        benef_street: None,
        benef_city: None,
        benef_country: None,
        remittance_info1: Some("Invoice 123".to_string()),
        remittance_info2: None,
        remittance_info3: None,
        comment: None,
        payment_reason: None,
        payment_type: None,
    }
}

fn sample_foreign() -> ForeignTransaction {
    ForeignTransaction {
        account_from: "CZ1234567890".to_string(),
        currency: "USD".to_string(),
        amount: Decimal::new(25000, 2),
        account_to: "US12345678".to_string(),
        bic: "ALFHPKKAXXX".to_string(),
        date: "2024-03-15".to_string(),
        benef_name: "Foreign Corp".to_string(),
        benef_street: "Nishtar Rd 13".to_string(),
        benef_city: "Karachi".to_string(),
        benef_country: "PK".to_string(),
        remittance_info1: "Payment for services".to_string(),
        remittance_info2: None,
        remittance_info3: None,
        remittance_info4: None,
        comment: None,
        payment_reason: "110".to_string(),
        details_of_charges: DetailsOfCharges::Shared,
    }
}

#[test]
fn builder_empty_produces_no_orders() {
    let import = ImportBuilder::new().build();
    assert!(import.orders.is_empty());
}

#[test]
fn builder_domestic_adds_transaction() {
    let import = ImportBuilder::new().domestic(sample_domestic()).build();
    assert_eq!(import.orders.len(), 1);
    assert!(matches!(import.orders[0], Type::Domestic(_)));
}

#[test]
fn builder_euro_adds_transaction() {
    let import = ImportBuilder::new().euro(sample_euro()).build();
    assert_eq!(import.orders.len(), 1);
    assert!(matches!(import.orders[0], Type::Euro(_)));
}

#[test]
fn builder_foreign_adds_transaction() {
    let import = ImportBuilder::new().foreign(sample_foreign()).build();
    assert_eq!(import.orders.len(), 1);
    assert!(matches!(import.orders[0], Type::Foreign(_)));
}

#[test]
fn builder_chaining_all_types() {
    let import = ImportBuilder::new()
        .domestic(sample_domestic())
        .euro(sample_euro())
        .foreign(sample_foreign())
        .build();
    assert_eq!(import.orders.len(), 3);
    assert!(matches!(import.orders[0], Type::Domestic(_)));
    assert!(matches!(import.orders[1], Type::Euro(_)));
    assert!(matches!(import.orders[2], Type::Foreign(_)));
}

#[test]
fn import_default_is_empty() {
    let import = Import::default();
    assert!(import.orders.is_empty());
}

#[test]
fn details_of_charges_display() {
    assert_eq!(DetailsOfCharges::Sender.to_string(), "470501");
    assert_eq!(DetailsOfCharges::Receiver.to_string(), "470502");
    assert_eq!(DetailsOfCharges::Shared.to_string(), "470503");
}

#[test]
fn domestic_payment_type_display() {
    assert_eq!(DomesticPaymentType::Standard.to_string(), "431001");
    assert_eq!(DomesticPaymentType::Priority.to_string(), "431005");
    assert_eq!(DomesticPaymentType::DirectDebit.to_string(), "431022");
}

#[test]
fn euro_payment_type_display() {
    assert_eq!(EuroPaymentType::Standard.to_string(), "431008");
    assert_eq!(EuroPaymentType::Priority.to_string(), "431009");
    assert_eq!(EuroPaymentType::Instant.to_string(), "431018");
}

#[test]
fn builder_groups_by_kind_whatever_the_insertion_order() {
    let mut builder = Import::builder();
    builder.foreign(sample_foreign());
    builder.domestic(sample_domestic());
    builder.euro(sample_euro());
    let import = builder.build();
    assert_eq!(
        import.orders,
        vec![
            Type::Domestic(sample_domestic()),
            Type::Euro(sample_euro()),
            Type::Foreign(sample_foreign()),
        ]
    );
}

#[test]
fn builder_keeps_insertion_order_within_a_kind() {
    let mut first = sample_domestic();
    first.account_to = "1".to_string();
    let mut second = sample_domestic();
    second.account_to = "2".to_string();
    let mut third = sample_domestic();
    third.account_to = "3".to_string();
    let mut builder = ImportBuilder::new();
    builder.domestic(first.clone());
    builder.euro(sample_euro());
    builder.domestic(second.clone());
    builder.domestic(third.clone());
    let import = builder.build();
    assert_eq!(
        import.orders,
        vec![
            Type::Domestic(first),
            Type::Domestic(second),
            Type::Domestic(third),
            Type::Euro(sample_euro()),
        ]
    );
}

#[test]
fn builder_is_drained_by_build() {
    let mut builder = ImportBuilder::default();
    builder.domestic(sample_domestic());
    builder.foreign(sample_foreign());
    let first = builder.build();
    assert_eq!(first.orders.len(), 2);
    let second = builder.build();
    assert!(second.orders.is_empty());
    builder.euro(sample_euro());
    let third = builder.build();
    assert_eq!(third.orders, vec![Type::Euro(sample_euro())]);
}

#[test]
fn export_format_tokens() {
    assert_eq!(ExportFormat::Json.to_string(), "json");
    assert_eq!(ExportFormat::Xml.to_string(), "xml");
    assert_eq!(ExportFormat::Csv.to_string(), "csv");
    assert_eq!(ExportFormat::Gpc.to_string(), "gpc");
    assert_eq!(ExportFormat::Html.to_string(), "html");
    assert_eq!(ExportFormat::Ofx.to_string(), "ofx");
    assert_eq!(ExportFormat::Pdf.to_string(), "pdf");
    assert_eq!(ExportFormat::Mt940.to_string(), "sta");
    assert_eq!(ExportFormat::CbaXml.to_string(), "cba_xml");
    assert_eq!(ExportFormat::SbaXml.to_string(), "sba_xml");
    assert_eq!(ExportFormat::Mt940.as_str(), "sta");
}

#[test]
fn code_tables_as_str() {
    assert_eq!(DetailsOfCharges::Sender.as_str(), "470501");
    assert_eq!(DomesticPaymentType::DirectDebit.as_str(), "431022");
    assert_eq!(EuroPaymentType::Instant.as_str(), "431018");
}
