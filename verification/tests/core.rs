use erp_backend::err::ApiErrors;
use erp_backend::handlers::info;
use erp_backend::models::purchase_invoices::{PurchaseInvoiceModel, PurchaseInvoiceRecord, PurchaseInvoiceStatus};
use erp_backend::models::purchase_orders::{PurchaseOrderModel, PurchaseOrderRecord, PurchaseOrderStatus};
use erp_backend::models::sale_invoices::{SaleInvoiceModel, SaleInvoiceRecord, SaleInvoiceStatus};
use erp_backend::models::sale_orders::{SaleOrderModel, SaleOrderRecord, SaleOrderStatus};
use erp_backend::schema_def::{erp_schema, erp_schema_well_formed};
use erp_backend::utils::name::valid_name;
use erp_backend::utils::password::is_secure_password;
use erp_backend::utils::text::{char_len, check_date_shape, len_between};

#[test]
fn password_policy_requires_all_four_classes() {
    assert!(is_secure_password("Password123!"));
    assert!(is_secure_password("aA0 "));
    assert!(!is_secure_password(""));
    assert!(!is_secure_password("a"));
    assert!(!is_secure_password("password123!")); // no upper case
    assert!(!is_secure_password("PASSWORD123!")); // no lower case
    assert!(!is_secure_password("Password!")); // no digit
    assert!(!is_secure_password("Password123")); // no punctuation
}

#[test]
fn password_special_class_covers_ascii_punctuation() {
    for c in [' ', '!', '"', '#', '$', '%', '&', '\'', '(', ')', '*', '+', ',', '-', '.', '/',
              ':', ';', '<', '=', '>', '?', '@', '[', '\\', ']', '^', '_', '`', '{', '|', '}', '~'] {
        let pw = format!("aA1{}", c);
        assert!(is_secure_password(&pw), "rejected {:?}", c);
    }
}

#[test]
fn date_shape_accepts_only_dash_separated_digits() {
    assert!(check_date_shape("2025-07-01"));
    assert!(check_date_shape("0000-00-00"));
    assert!(!check_date_shape("invalid"));
    assert!(!check_date_shape("2025-07-0a"));
    assert!(!check_date_shape("2025_07_01"));
    assert!(!check_date_shape("2025-07-010"));
}

#[test]
fn name_rule_wants_two_characters() {
    assert!(!valid_name(""));
    assert!(!valid_name("a"));
    assert!(valid_name("ab"));
    assert!(valid_name("Admin"));
}

#[test]
fn text_lengths_count_characters() {
    assert_eq!(char_len(""), 0);
    assert_eq!(char_len("abc"), 3);
    assert!(len_between("abc", 1, 3));
    assert!(!len_between("abcd", 1, 3));
    assert!(!len_between("", 1, 3));
}

#[test]
fn api_errors_carry_status_message_and_code() {
    assert_eq!(ApiErrors::AccountNotFound.status(), 404u16);
    assert_eq!(ApiErrors::AccountNotFound.message(), "Ledger account could not be found");
    assert_eq!(ApiErrors::AccountNotFound.code(), "ACCOUNT_NOT_FOUND");
    assert_eq!(ApiErrors::DatabaseUnreachable.status(), 500u16);
    assert_eq!(ApiErrors::DatabaseUnreachable.code(), "DATABASE_UNREACHABLE");
    assert_eq!(ApiErrors::InternalServerError.status(), 500u16);
    assert_eq!(ApiErrors::InternalServerError.message(), "Internal server error");
    assert_eq!(ApiErrors::InternalServerError.code(), "INTERNAL_SERVER_ERROR");
    assert_eq!(ApiErrors::InvalidAccountType.status(), 400u16);
    assert_eq!(ApiErrors::VariantNotFound.status(), 404u16);
    assert_eq!(ApiErrors::VariantNotFound.message(), "Variant not found");
    assert_eq!(ApiErrors::VariantNotFound.code(), "VARIANT_NOT_FOUND");
}

#[test]
fn info_returns_the_greeting() {
    assert_eq!(info::get(), "hello");
}

#[test]
fn schema_is_well_formed() {
    assert!(erp_schema_well_formed());
    let s = erp_schema();
    assert_eq!(s.enums.len(), 4);
    assert_eq!(s.tables.len(), 17);
    assert_eq!(s.tables[0].name, "users");
    assert_eq!(s.tables[16].name, "purchase_invoice_lines");
}

#[test]
fn schema_checker_rejects_a_dangling_foreign_key() {
    let mut s = erp_schema();
    // Point one foreign key at a table that does not exist.
    s.tables[2].foreign_keys[0].to_table = "missing".to_string();
    assert!(!erp_backend::schema::schema_well_formed(&s));
}

#[test]
fn schema_checker_rejects_duplicate_table_names() {
    let mut s = erp_schema();
    let name = s.tables[0].name.clone();
    s.tables[1].name = name;
    assert!(!erp_backend::schema::schema_well_formed(&s));
}

#[test]
fn sale_order_statuses_are_spelled_out() {
    let base = SaleOrderRecord {
        id: 1,
        reference: "SO-1".to_string(),
        date: "2025-07-01".to_string(),
        status: SaleOrderStatus::Draft,
        customer_id: 2,
        source_stock_id: 3,
        target_stock_id: 4,
    };
    let m = SaleOrderModel::from(&base);
    assert_eq!(m.status, "draft".to_string());
    assert_eq!(m.reference, "SO-1".to_string());
    assert_eq!(m.date, "2025-07-01".to_string());
    assert_eq!(m.customer_id, 2);
    assert_eq!(m.source_stock_id, 3);
    assert_eq!(m.target_stock_id, 4);
    let quotation = SaleOrderRecord { status: SaleOrderStatus::Quotation, ..base };
    assert_eq!(SaleOrderModel::from(&quotation).status, "quotation".to_string());
    let order = SaleOrderRecord { status: SaleOrderStatus::Order, ..quotation };
    assert_eq!(SaleOrderModel::from(&order).status, "order".to_string());
    let finished = SaleOrderRecord { status: SaleOrderStatus::Finished, ..order };
    assert_eq!(SaleOrderModel::from(&finished).status, "finished".to_string());
}

#[test]
fn sale_invoice_statuses_are_spelled_out() {
    let base = SaleInvoiceRecord {
        id: 1,
        reference: "SI-1".to_string(),
        date: "2025-07-01".to_string(),
        status: SaleInvoiceStatus::Draft,
        order_id: 2,
        customer_id: 3,
    };
    assert_eq!(SaleInvoiceModel::from(&base).status, "draft".to_string());
    let proforma = SaleInvoiceRecord { status: SaleInvoiceStatus::Proforma, ..base };
    assert_eq!(SaleInvoiceModel::from(&proforma).status, "proforma".to_string());
    let invoice = SaleInvoiceRecord { status: SaleInvoiceStatus::Invoice, ..proforma };
    assert_eq!(SaleInvoiceModel::from(&invoice).status, "invoice".to_string());
    let finished = SaleInvoiceRecord { status: SaleInvoiceStatus::Finished, ..invoice };
    assert_eq!(SaleInvoiceModel::from(&finished).status, "finished".to_string());
}

#[test]
fn purchase_document_statuses_are_spelled_out() {
    let order = PurchaseOrderRecord {
        id: 1,
        reference: "PO-1".to_string(),
        date: "2025-07-01".to_string(),
        status: PurchaseOrderStatus::Draft,
        supplier_id: 2,
        source_stock_id: 3,
        target_stock_id: 4,
    };
    assert_eq!(PurchaseOrderModel::from(&order).status, "draft".to_string());
    let done = PurchaseOrderRecord { status: PurchaseOrderStatus::Finished, ..order };
    assert_eq!(PurchaseOrderModel::from(&done).status, "finished".to_string());
    let invoice = PurchaseInvoiceRecord {
        id: 1,
        reference: "PI-1".to_string(),
        date: "2025-07-01".to_string(),
        status: PurchaseInvoiceStatus::Draft,
        order_id: 2,
        supplier_id: 3,
    };
    assert_eq!(PurchaseInvoiceModel::from(&invoice).status, "draft".to_string());
    let paid = PurchaseInvoiceRecord { status: PurchaseInvoiceStatus::Finished, ..invoice };
    assert_eq!(PurchaseInvoiceModel::from(&paid).status, "finished".to_string());
}
