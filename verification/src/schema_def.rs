//! The concrete ERP schema: the four status enumerations and the
//! seventeen tables, pinned table by table at the specification level and
//! proved well formed.

use vstd::prelude::*;
use crate::schema::{
    schema_well_formed, ColumnSpec, ColumnType, EnumTypeSpec, FkAction, ForeignKeySpec, Schema,
    TableSpec,
};

verus! {

/// An auto-incremented integer primary-key column of the given name.
pub open spec fn is_pk_col(c: ColumnSpec, name: Seq<char>) -> bool {
    &&& c.name@ == name
    &&& c.ty == ColumnType::Integer
    &&& !c.nullable
    &&& c.primary_key
    &&& c.auto_increment
}

/// An ordinary non-nullable column of the given name and type.
pub open spec fn is_plain_col(c: ColumnSpec, name: Seq<char>, ty: ColumnType) -> bool {
    &&& c.name@ == name
    &&& c.ty == ty
    &&& !c.nullable
    &&& !c.primary_key
    &&& !c.auto_increment
}

/// A nullable column of the given name and type.
pub open spec fn is_null_col(c: ColumnSpec, name: Seq<char>, ty: ColumnType) -> bool {
    &&& c.name@ == name
    &&& c.ty == ty
    &&& c.nullable
    &&& !c.primary_key
    &&& !c.auto_increment
}

/// A non-nullable column of the given name whose type is the enumeration
/// of the given type name.
pub open spec fn is_enum_col(c: ColumnSpec, name: Seq<char>, ty_name: Seq<char>) -> bool {
    &&& c.name@ == name
    &&& c.ty matches ColumnType::Enumeration(e) && e@ == ty_name
    &&& !c.nullable
    &&& !c.primary_key
    &&& !c.auto_increment
}

/// A foreign key with the given name, source column, target, and on-delete
/// action.
pub open spec fn is_fk(
    k: ForeignKeySpec,
    name: Seq<char>,
    from_column: Seq<char>,
    to_table: Seq<char>,
    to_column: Seq<char>,
    on_delete: FkAction,
) -> bool {
    &&& k.name@ == name
    &&& k.from_column@ == from_column
    &&& k.to_table@ == to_table
    &&& k.to_column@ == to_column
    &&& k.on_delete == on_delete
}

fn col_pk_auto(name: &str) -> (c: ColumnSpec)
    ensures
        is_pk_col(c, name@),
{
    ColumnSpec {
        name: name.to_owned(),
        ty: ColumnType::Integer,
        nullable: false,
        primary_key: true,
        auto_increment: true,
    }
}

fn col(name: &str, ty: ColumnType) -> (c: ColumnSpec)
    ensures
        is_plain_col(c, name@, ty),
{
    ColumnSpec { name: name.to_owned(), ty, nullable: false, primary_key: false, auto_increment: false }
}

fn col_null(name: &str, ty: ColumnType) -> (c: ColumnSpec)
    ensures
        is_null_col(c, name@, ty),
{
    ColumnSpec { name: name.to_owned(), ty, nullable: true, primary_key: false, auto_increment: false }
}

fn col_enum(name: &str, ty_name: &str) -> (c: ColumnSpec)
    ensures
        is_enum_col(c, name@, ty_name@),
{
    ColumnSpec {
        name: name.to_owned(),
        ty: ColumnType::Enumeration(ty_name.to_owned()),
        nullable: false,
        primary_key: false,
        auto_increment: false,
    }
}

fn fk(name: &str, from_column: &str, to_table: &str, to_column: &str, on_delete: FkAction) -> (k:
    ForeignKeySpec)
    ensures
        is_fk(k, name@, from_column@, to_table@, to_column@, on_delete),
{
    ForeignKeySpec {
        name: name.to_owned(),
        from_column: from_column.to_owned(),
        to_table: to_table.to_owned(),
        to_column: to_column.to_owned(),
        on_delete,
    }
}

fn table(name: &str) -> (t: TableSpec)
    ensures
        t.name@ == name@,
        t.columns@.len() == 0,
        t.foreign_keys@.len() == 0,
{
    TableSpec { name: name.to_owned(), columns: Vec::new(), foreign_keys: Vec::new() }
}

/// The `sale_order_status` enumeration with its values in order.
pub open spec fn is_sale_order_status_enum(e: EnumTypeSpec) -> bool {
    &&& e.name@ == "sale_order_status"@
    &&& e.values@.len() == 4
    &&& e.values@[0]@ == "draft"@
    &&& e.values@[1]@ == "quotation"@
    &&& e.values@[2]@ == "order"@
    &&& e.values@[3]@ == "finished"@
}

fn enum_sale_order_status() -> (e: EnumTypeSpec)
    ensures
        is_sale_order_status_enum(e),
{
    let mut values: Vec<String> = Vec::new();
    values.push("draft".to_owned());
    values.push("quotation".to_owned());
    values.push("order".to_owned());
    values.push("finished".to_owned());
    EnumTypeSpec { name: "sale_order_status".to_owned(), values }
}

/// The `sale_invoice_status` enumeration with its values in order.
pub open spec fn is_sale_invoice_status_enum(e: EnumTypeSpec) -> bool {
    &&& e.name@ == "sale_invoice_status"@
    &&& e.values@.len() == 4
    &&& e.values@[0]@ == "draft"@
    &&& e.values@[1]@ == "proforma"@
    &&& e.values@[2]@ == "invoice"@
    &&& e.values@[3]@ == "finished"@
}

fn enum_sale_invoice_status() -> (e: EnumTypeSpec)
    ensures
        is_sale_invoice_status_enum(e),
{
    let mut values: Vec<String> = Vec::new();
    values.push("draft".to_owned());
    values.push("proforma".to_owned());
    values.push("invoice".to_owned());
    values.push("finished".to_owned());
    EnumTypeSpec { name: "sale_invoice_status".to_owned(), values }
}

/// The `purchase_order_status` enumeration with its values in order.
pub open spec fn is_purchase_order_status_enum(e: EnumTypeSpec) -> bool {
    &&& e.name@ == "purchase_order_status"@
    &&& e.values@.len() == 2
    &&& e.values@[0]@ == "draft"@
    &&& e.values@[1]@ == "finished"@
}

fn enum_purchase_order_status() -> (e: EnumTypeSpec)
    ensures
        is_purchase_order_status_enum(e),
{
    let mut values: Vec<String> = Vec::new();
    values.push("draft".to_owned());
    values.push("finished".to_owned());
    EnumTypeSpec { name: "purchase_order_status".to_owned(), values }
}

/// The `purchase_invoice_status` enumeration with its values in order.
pub open spec fn is_purchase_invoice_status_enum(e: EnumTypeSpec) -> bool {
    &&& e.name@ == "purchase_invoice_status"@
    &&& e.values@.len() == 2
    &&& e.values@[0]@ == "draft"@
    &&& e.values@[1]@ == "finished"@
}

fn enum_purchase_invoice_status() -> (e: EnumTypeSpec)
    ensures
        is_purchase_invoice_status_enum(e),
{
    let mut values: Vec<String> = Vec::new();
    values.push("draft".to_owned());
    values.push("finished".to_owned());
    EnumTypeSpec { name: "purchase_invoice_status".to_owned(), values }
}

/// The `users` table, column by column and key by key.
pub open spec fn is_users_table(t: TableSpec) -> bool {
    &&& t.name@ == "users"@
    &&& t.columns@.len() == 5
    &&& is_pk_col(t.columns@[0], "id"@)
    &&& is_plain_col(t.columns@[1], "email"@, ColumnType::Text)
    &&& is_plain_col(t.columns@[2], "pass_hash"@, ColumnType::Text)
    &&& is_plain_col(t.columns@[3], "first_name"@, ColumnType::Text)
    &&& is_plain_col(t.columns@[4], "last_name"@, ColumnType::Text)
    &&& t.foreign_keys@.len() == 0
}

fn table_users() -> (t: TableSpec)
    ensures
        is_users_table(t),
{
    let mut t = table("users");
    t.columns.push(col_pk_auto("id"));
    t.columns.push(col("email", ColumnType::Text));
    t.columns.push(col("pass_hash", ColumnType::Text));
    t.columns.push(col("first_name", ColumnType::Text));
    t.columns.push(col("last_name", ColumnType::Text));
    t
}

/// The `ledger_accounts` table, column by column and key by key.
pub open spec fn is_ledger_accounts_table(t: TableSpec) -> bool {
    &&& t.name@ == "ledger_accounts"@
    &&& t.columns@.len() == 3
    &&& is_pk_col(t.columns@[0], "id"@)
    &&& is_plain_col(t.columns@[1], "account_type"@, ColumnType::Text)
    &&& is_plain_col(t.columns@[2], "name"@, ColumnType::Text)
    &&& t.foreign_keys@.len() == 0
}

fn table_ledger_accounts() -> (t: TableSpec)
    ensures
        is_ledger_accounts_table(t),
{
    let mut t = table("ledger_accounts");
    t.columns.push(col_pk_auto("id"));
    t.columns.push(col("account_type", ColumnType::Text));
    t.columns.push(col("name", ColumnType::Text));
    t
}

/// The `ledger_transactions` table, column by column and key by key.
pub open spec fn is_ledger_transactions_table(t: TableSpec) -> bool {
    &&& t.name@ == "ledger_transactions"@
    &&& t.columns@.len() == 5
    &&& is_pk_col(t.columns@[0], "id"@)
    &&& is_plain_col(t.columns@[1], "date"@, ColumnType::Date)
    &&& is_plain_col(t.columns@[2], "amount"@, ColumnType::Integer)
    &&& is_plain_col(t.columns@[3], "debit_account_id"@, ColumnType::Integer)
    &&& is_plain_col(t.columns@[4], "credit_account_id"@, ColumnType::Integer)
    &&& t.foreign_keys@.len() == 2
    &&& is_fk(
        t.foreign_keys@[0],
        "rel_ledger_transactions_debit_account_id"@,
        "debit_account_id"@,
        "ledger_accounts"@,
        "id"@,
        FkAction::Restrict,
    )
    &&& is_fk(
        t.foreign_keys@[1],
        "rel_ledger_transactions_credit_account_id"@,
        "credit_account_id"@,
        "ledger_accounts"@,
        "id"@,
        FkAction::Restrict,
    )
}

fn table_ledger_transactions() -> (t: TableSpec)
    ensures
        is_ledger_transactions_table(t),
{
    let mut t = table("ledger_transactions");
    t.columns.push(col_pk_auto("id"));
    t.columns.push(col("date", ColumnType::Date));
    t.columns.push(col("amount", ColumnType::Integer));
    t.columns.push(col("debit_account_id", ColumnType::Integer));
    t.columns.push(col("credit_account_id", ColumnType::Integer));
    t.foreign_keys.push(fk(
        "rel_ledger_transactions_debit_account_id",
        "debit_account_id",
        "ledger_accounts",
        "id",
        FkAction::Restrict,
    ));
    t.foreign_keys.push(fk(
        "rel_ledger_transactions_credit_account_id",
        "credit_account_id",
        "ledger_accounts",
        "id",
        FkAction::Restrict,
    ));
    t
}

/// The `contacts` table, column by column and key by key.
pub open spec fn is_contacts_table(t: TableSpec) -> bool {
    &&& t.name@ == "contacts"@
    &&& t.columns@.len() == 11
    &&& is_pk_col(t.columns@[0], "id"@)
    &&& is_plain_col(t.columns@[1], "name"@, ColumnType::Text)
    &&& is_plain_col(t.columns@[2], "is_customer"@, ColumnType::Boolean)
    &&& is_plain_col(t.columns@[3], "is_supplier"@, ColumnType::Boolean)
    &&& is_plain_col(t.columns@[4], "street1"@, ColumnType::Text)
    &&& is_plain_col(t.columns@[5], "street2"@, ColumnType::Text)
    &&& is_plain_col(t.columns@[6], "postal_code"@, ColumnType::Text)
    &&& is_plain_col(t.columns@[7], "city"@, ColumnType::Text)
    &&& is_plain_col(t.columns@[8], "country"@, ColumnType::Text)
    &&& is_null_col(t.columns@[9], "customer_account_id"@, ColumnType::Integer)
    &&& is_null_col(t.columns@[10], "supplier_account_id"@, ColumnType::Integer)
    &&& t.foreign_keys@.len() == 2
    &&& is_fk(
        t.foreign_keys@[0],
        "rel_contacts_customer_account_id"@,
        "customer_account_id"@,
        "ledger_accounts"@,
        "id"@,
        FkAction::Restrict,
    )
    &&& is_fk(
        t.foreign_keys@[1],
        "rel_contacts_supplier_account_id"@,
        "supplier_account_id"@,
        "ledger_accounts"@,
        "id"@,
        FkAction::Restrict,
    )
}

fn table_contacts() -> (t: TableSpec)
    ensures
        is_contacts_table(t),
{
    let mut t = table("contacts");
    t.columns.push(col_pk_auto("id"));
    t.columns.push(col("name", ColumnType::Text));
    t.columns.push(col("is_customer", ColumnType::Boolean));
    t.columns.push(col("is_supplier", ColumnType::Boolean));
    t.columns.push(col("street1", ColumnType::Text));
    t.columns.push(col("street2", ColumnType::Text));
    t.columns.push(col("postal_code", ColumnType::Text));
    t.columns.push(col("city", ColumnType::Text));
    t.columns.push(col("country", ColumnType::Text));
    t.columns.push(col_null("customer_account_id", ColumnType::Integer));
    t.columns.push(col_null("supplier_account_id", ColumnType::Integer));
    t.foreign_keys.push(fk(
        "rel_contacts_customer_account_id",
        "customer_account_id",
        "ledger_accounts",
        "id",
        FkAction::Restrict,
    ));
    t.foreign_keys.push(fk(
        "rel_contacts_supplier_account_id",
        "supplier_account_id",
        "ledger_accounts",
        "id",
        FkAction::Restrict,
    ));
    t
}

/// The `products` table, column by column and key by key.
pub open spec fn is_products_table(t: TableSpec) -> bool {
    &&& t.name@ == "products"@
    &&& t.columns@.len() == 2
    &&& is_pk_col(t.columns@[0], "id"@)
    &&& is_plain_col(t.columns@[1], "name"@, ColumnType::Text)
    &&& t.foreign_keys@.len() == 0
}

fn table_products() -> (t: TableSpec)
    ensures
        is_products_table(t),
{
    let mut t = table("products");
    t.columns.push(col_pk_auto("id"));
    t.columns.push(col("name", ColumnType::Text));
    t
}

/// The `variants` table, column by column and key by key.
pub open spec fn is_variants_table(t: TableSpec) -> bool {
    &&& t.name@ == "variants"@
    &&& t.columns@.len() == 5
    &&& is_pk_col(t.columns@[0], "id"@)
    &&& is_plain_col(t.columns@[1], "name"@, ColumnType::Text)
    &&& is_plain_col(t.columns@[2], "sale_price"@, ColumnType::Integer)
    &&& is_plain_col(t.columns@[3], "purchase_price"@, ColumnType::Integer)
    &&& is_plain_col(t.columns@[4], "product_id"@, ColumnType::Integer)
    &&& t.foreign_keys@.len() == 1
    &&& is_fk(
        t.foreign_keys@[0],
        "rel_variants_product_id"@,
        "product_id"@,
        "products"@,
        "id"@,
        FkAction::Restrict,
    )
}

fn table_variants() -> (t: TableSpec)
    ensures
        is_variants_table(t),
{
    let mut t = table("variants");
    t.columns.push(col_pk_auto("id"));
    t.columns.push(col("name", ColumnType::Text));
    t.columns.push(col("sale_price", ColumnType::Integer));
    t.columns.push(col("purchase_price", ColumnType::Integer));
    t.columns.push(col("product_id", ColumnType::Integer));
    t.foreign_keys.push(fk(
        "rel_variants_product_id",
        "product_id",
        "products",
        "id",
        FkAction::Restrict,
    ));
    t
}

/// The `stocks` table, column by column and key by key.
pub open spec fn is_stocks_table(t: TableSpec) -> bool {
    &&& t.name@ == "stocks"@
    &&& t.columns@.len() == 4
    &&& is_pk_col(t.columns@[0], "id"@)
    &&& is_plain_col(t.columns@[1], "name"@, ColumnType::Text)
    &&& is_plain_col(t.columns@[2], "is_own"@, ColumnType::Boolean)
    &&& is_null_col(t.columns@[3], "owner_id"@, ColumnType::Integer)
    &&& t.foreign_keys@.len() == 1
    &&& is_fk(
        t.foreign_keys@[0],
        "rel_stocks_owner_id"@,
        "owner_id"@,
        "contacts"@,
        "id"@,
        FkAction::SetNull,
    )
}

fn table_stocks() -> (t: TableSpec)
    ensures
        is_stocks_table(t),
{
    let mut t = table("stocks");
    t.columns.push(col_pk_auto("id"));
    t.columns.push(col("name", ColumnType::Text));
    t.columns.push(col("is_own", ColumnType::Boolean));
    t.columns.push(col_null("owner_id", ColumnType::Integer));
    t.foreign_keys.push(fk(
        "rel_stocks_owner_id",
        "owner_id",
        "contacts",
        "id",
        FkAction::SetNull,
    ));
    t
}

/// The `stock_moves` table, column by column and key by key.
pub open spec fn is_stock_moves_table(t: TableSpec) -> bool {
    &&& t.name@ == "stock_moves"@
    &&& t.columns@.len() == 5
    &&& is_pk_col(t.columns@[0], "id"@)
    &&& is_plain_col(t.columns@[1], "quantity"@, ColumnType::Double)
    &&& is_plain_col(t.columns@[2], "variant_id"@, ColumnType::Integer)
    &&& is_plain_col(t.columns@[3], "source_stock_id"@, ColumnType::Integer)
    &&& is_plain_col(t.columns@[4], "target_stock_id"@, ColumnType::Integer)
    &&& t.foreign_keys@.len() == 3
    &&& is_fk(
        t.foreign_keys@[0],
        "rel_stock_moves_variant_id"@,
        "variant_id"@,
        "variants"@,
        "id"@,
        FkAction::SetNull,
    )
    &&& is_fk(
        t.foreign_keys@[1],
        "rel_stock_moves_source_stock_id"@,
        "source_stock_id"@,
        "stocks"@,
        "id"@,
        FkAction::SetNull,
    )
    &&& is_fk(
        t.foreign_keys@[2],
        "rel_stock_moves_target_stock_id"@,
        "target_stock_id"@,
        "stocks"@,
        "id"@,
        FkAction::SetNull,
    )
}

fn table_stock_moves() -> (t: TableSpec)
    ensures
        is_stock_moves_table(t),
{
    let mut t = table("stock_moves");
    t.columns.push(col_pk_auto("id"));
    t.columns.push(col("quantity", ColumnType::Double));
    t.columns.push(col("variant_id", ColumnType::Integer));
    t.columns.push(col("source_stock_id", ColumnType::Integer));
    t.columns.push(col("target_stock_id", ColumnType::Integer));
    t.foreign_keys.push(fk(
        "rel_stock_moves_variant_id",
        "variant_id",
        "variants",
        "id",
        FkAction::SetNull,
    ));
    t.foreign_keys.push(fk(
        "rel_stock_moves_source_stock_id",
        "source_stock_id",
        "stocks",
        "id",
        FkAction::SetNull,
    ));
    t.foreign_keys.push(fk(
        "rel_stock_moves_target_stock_id",
        "target_stock_id",
        "stocks",
        "id",
        FkAction::SetNull,
    ));
    t
}

/// The `taxes` table, column by column and key by key.
pub open spec fn is_taxes_table(t: TableSpec) -> bool {
    &&& t.name@ == "taxes"@
    &&& t.columns@.len() == 5
    &&& is_pk_col(t.columns@[0], "id"@)
    &&& is_plain_col(t.columns@[1], "name"@, ColumnType::Text)
    &&& is_plain_col(t.columns@[2], "name_short"@, ColumnType::Text)
    &&& is_plain_col(t.columns@[3], "rate"@, ColumnType::Double)
    &&& is_plain_col(t.columns@[4], "account_id"@, ColumnType::Integer)
    &&& t.foreign_keys@.len() == 1
    &&& is_fk(
        t.foreign_keys@[0],
        "rel_taxes_account_id"@,
        "account_id"@,
        "ledger_accounts"@,
        "id"@,
        FkAction::Restrict,
    )
}

fn table_taxes() -> (t: TableSpec)
    ensures
        is_taxes_table(t),
{
    let mut t = table("taxes");
    t.columns.push(col_pk_auto("id"));
    t.columns.push(col("name", ColumnType::Text));
    t.columns.push(col("name_short", ColumnType::Text));
    t.columns.push(col("rate", ColumnType::Double));
    t.columns.push(col("account_id", ColumnType::Integer));
    t.foreign_keys.push(fk(
        "rel_taxes_account_id",
        "account_id",
        "ledger_accounts",
        "id",
        FkAction::Restrict,
    ));
    t
}

/// The `sale_orders` table, column by column and key by key.
pub open spec fn is_sale_orders_table(t: TableSpec) -> bool {
    &&& t.name@ == "sale_orders"@
    &&& t.columns@.len() == 7
    &&& is_pk_col(t.columns@[0], "id"@)
    &&& is_plain_col(t.columns@[1], "reference"@, ColumnType::Text)
    &&& is_plain_col(t.columns@[2], "date"@, ColumnType::Date)
    &&& is_enum_col(t.columns@[3], "status"@, "sale_order_status"@)
    &&& is_plain_col(t.columns@[4], "customer_id"@, ColumnType::Integer)
    &&& is_plain_col(t.columns@[5], "source_stock_id"@, ColumnType::Integer)
    &&& is_plain_col(t.columns@[6], "target_stock_id"@, ColumnType::Integer)
    &&& t.foreign_keys@.len() == 3
    &&& is_fk(
        t.foreign_keys@[0],
        "rel_sale_orders_customer_id"@,
        "customer_id"@,
        "contacts"@,
        "id"@,
        FkAction::Restrict,
    )
    &&& is_fk(
        t.foreign_keys@[1],
        "rel_sale_orders_source_stock_id"@,
        "source_stock_id"@,
        "stocks"@,
        "id"@,
        FkAction::Restrict,
    )
    &&& is_fk(
        t.foreign_keys@[2],
        "rel_sale_orders_target_stock_id"@,
        "target_stock_id"@,
        "stocks"@,
        "id"@,
        FkAction::Restrict,
    )
}

fn table_sale_orders() -> (t: TableSpec)
    ensures
        is_sale_orders_table(t),
{
    let mut t = table("sale_orders");
    t.columns.push(col_pk_auto("id"));
    t.columns.push(col("reference", ColumnType::Text));
    t.columns.push(col("date", ColumnType::Date));
    t.columns.push(col_enum("status", "sale_order_status"));
    t.columns.push(col("customer_id", ColumnType::Integer));
    t.columns.push(col("source_stock_id", ColumnType::Integer));
    t.columns.push(col("target_stock_id", ColumnType::Integer));
    t.foreign_keys.push(fk(
        "rel_sale_orders_customer_id",
        "customer_id",
        "contacts",
        "id",
        FkAction::Restrict,
    ));
    t.foreign_keys.push(fk(
        "rel_sale_orders_source_stock_id",
        "source_stock_id",
        "stocks",
        "id",
        FkAction::Restrict,
    ));
    t.foreign_keys.push(fk(
        "rel_sale_orders_target_stock_id",
        "target_stock_id",
        "stocks",
        "id",
        FkAction::Restrict,
    ));
    t
}

/// The `sale_order_lines` table, column by column and key by key.
pub open spec fn is_sale_order_lines_table(t: TableSpec) -> bool {
    &&& t.name@ == "sale_order_lines"@
    &&& t.columns@.len() == 8
    &&& is_pk_col(t.columns@[0], "id"@)
    &&& is_plain_col(t.columns@[1], "description"@, ColumnType::Text)
    &&& is_plain_col(t.columns@[2], "quantity"@, ColumnType::Double)
    &&& is_plain_col(t.columns@[3], "price"@, ColumnType::Integer)
    &&& is_plain_col(t.columns@[4], "tax"@, ColumnType::Integer)
    &&& is_plain_col(t.columns@[5], "order_id"@, ColumnType::Integer)
    &&& is_null_col(t.columns@[6], "variant_id"@, ColumnType::Integer)
    &&& is_null_col(t.columns@[7], "move_id"@, ColumnType::Integer)
    &&& t.foreign_keys@.len() == 3
    &&& is_fk(
        t.foreign_keys@[0],
        "rel_sale_order_lines_order_id"@,
        "order_id"@,
        "sale_orders"@,
        "id"@,
        FkAction::Restrict,
    )
    &&& is_fk(
        t.foreign_keys@[1],
        "rel_sale_order_lines_variant_id"@,
        "variant_id"@,
        "variants"@,
        "id"@,
        FkAction::Restrict,
    )
    &&& is_fk(
        t.foreign_keys@[2],
        "rel_sale_order_lines_move_id"@,
        "move_id"@,
        "stock_moves"@,
        "id"@,
        FkAction::Restrict,
    )
}

fn table_sale_order_lines() -> (t: TableSpec)
    ensures
        is_sale_order_lines_table(t),
{
    let mut t = table("sale_order_lines");
    t.columns.push(col_pk_auto("id"));
    t.columns.push(col("description", ColumnType::Text));
    t.columns.push(col("quantity", ColumnType::Double));
    t.columns.push(col("price", ColumnType::Integer));
    t.columns.push(col("tax", ColumnType::Integer));
    t.columns.push(col("order_id", ColumnType::Integer));
    t.columns.push(col_null("variant_id", ColumnType::Integer));
    t.columns.push(col_null("move_id", ColumnType::Integer));
    t.foreign_keys.push(fk(
        "rel_sale_order_lines_order_id",
        "order_id",
        "sale_orders",
        "id",
        FkAction::Restrict,
    ));
    t.foreign_keys.push(fk(
        "rel_sale_order_lines_variant_id",
        "variant_id",
        "variants",
        "id",
        FkAction::Restrict,
    ));
    t.foreign_keys.push(fk(
        "rel_sale_order_lines_move_id",
        "move_id",
        "stock_moves",
        "id",
        FkAction::Restrict,
    ));
    t
}

/// The `sale_invoices` table, column by column and key by key.
pub open spec fn is_sale_invoices_table(t: TableSpec) -> bool {
    &&& t.name@ == "sale_invoices"@
    &&& t.columns@.len() == 6
    &&& is_pk_col(t.columns@[0], "id"@)
    &&& is_plain_col(t.columns@[1], "reference"@, ColumnType::Text)
    &&& is_plain_col(t.columns@[2], "date"@, ColumnType::Date)
    &&& is_enum_col(t.columns@[3], "status"@, "sale_invoice_status"@)
    &&& is_plain_col(t.columns@[4], "order_id"@, ColumnType::Integer)
    &&& is_plain_col(t.columns@[5], "customer_id"@, ColumnType::Integer)
    &&& t.foreign_keys@.len() == 2
    &&& is_fk(
        t.foreign_keys@[0],
        "rel_sale_invoices_order_id"@,
        "order_id"@,
        "sale_orders"@,
        "id"@,
        FkAction::Restrict,
    )
    &&& is_fk(
        t.foreign_keys@[1],
        "rel_sale_invoices_customer_id"@,
        "customer_id"@,
        "contacts"@,
        "id"@,
        FkAction::Restrict,
    )
}

fn table_sale_invoices() -> (t: TableSpec)
    ensures
        is_sale_invoices_table(t),
{
    let mut t = table("sale_invoices");
    t.columns.push(col_pk_auto("id"));
    t.columns.push(col("reference", ColumnType::Text));
    t.columns.push(col("date", ColumnType::Date));
    t.columns.push(col_enum("status", "sale_invoice_status"));
    t.columns.push(col("order_id", ColumnType::Integer));
    t.columns.push(col("customer_id", ColumnType::Integer));
    t.foreign_keys.push(fk(
        "rel_sale_invoices_order_id",
        "order_id",
        "sale_orders",
        "id",
        FkAction::Restrict,
    ));
    t.foreign_keys.push(fk(
        "rel_sale_invoices_customer_id",
        "customer_id",
        "contacts",
        "id",
        FkAction::Restrict,
    ));
    t
}

/// The `sale_invoice_lines` table, column by column and key by key.
pub open spec fn is_sale_invoice_lines_table(t: TableSpec) -> bool {
    &&& t.name@ == "sale_invoice_lines"@
    &&& t.columns@.len() == 10
    &&& is_pk_col(t.columns@[0], "id"@)
    &&& is_plain_col(t.columns@[1], "description"@, ColumnType::Text)
    &&& is_plain_col(t.columns@[2], "quantity"@, ColumnType::Double)
    &&& is_plain_col(t.columns@[3], "price"@, ColumnType::Integer)
    &&& is_plain_col(t.columns@[4], "tax"@, ColumnType::Integer)
    &&& is_plain_col(t.columns@[5], "invoice_id"@, ColumnType::Integer)
    &&& is_null_col(t.columns@[6], "variant_id"@, ColumnType::Integer)
    &&& is_null_col(t.columns@[7], "transaction_id"@, ColumnType::Integer)
    &&& is_null_col(t.columns@[8], "tax_id"@, ColumnType::Integer)
    &&& is_null_col(t.columns@[9], "tax_transaction_id"@, ColumnType::Integer)
    &&& t.foreign_keys@.len() == 5
    &&& is_fk(
        t.foreign_keys@[0],
        "rel_sale_invoice_lines_invoice_id"@,
        "invoice_id"@,
        "sale_invoices"@,
        "id"@,
        FkAction::Restrict,
    )
    &&& is_fk(
        t.foreign_keys@[1],
        "rel_sale_invoice_lines_variant_id"@,
        "variant_id"@,
        "variants"@,
        "id"@,
        FkAction::Restrict,
    )
    &&& is_fk(
        t.foreign_keys@[2],
        "rel_sale_invoice_lines_transaction_id"@,
        "transaction_id"@,
        "ledger_transactions"@,
        "id"@,
        FkAction::Restrict,
    )
    &&& is_fk(
        t.foreign_keys@[3],
        "rel_sale_invoice_lines_tax_id"@,
        "tax_id"@,
        "taxes"@,
        "id"@,
        FkAction::Restrict,
    )
    &&& is_fk(
        t.foreign_keys@[4],
        "rel_sale_invoice_lines_tax_transaction_id"@,
        "tax_transaction_id"@,
        "ledger_transactions"@,
        "id"@,
        FkAction::Restrict,
    )
}

fn table_sale_invoice_lines() -> (t: TableSpec)
    ensures
        is_sale_invoice_lines_table(t),
{
    let mut t = table("sale_invoice_lines");
    t.columns.push(col_pk_auto("id"));
    t.columns.push(col("description", ColumnType::Text));
    t.columns.push(col("quantity", ColumnType::Double));
    t.columns.push(col("price", ColumnType::Integer));
    t.columns.push(col("tax", ColumnType::Integer));
    t.columns.push(col("invoice_id", ColumnType::Integer));
    t.columns.push(col_null("variant_id", ColumnType::Integer));
    t.columns.push(col_null("transaction_id", ColumnType::Integer));
    t.columns.push(col_null("tax_id", ColumnType::Integer));
    t.columns.push(col_null("tax_transaction_id", ColumnType::Integer));
    t.foreign_keys.push(fk(
        "rel_sale_invoice_lines_invoice_id",
        "invoice_id",
        "sale_invoices",
        "id",
        FkAction::Restrict,
    ));
    t.foreign_keys.push(fk(
        "rel_sale_invoice_lines_variant_id",
        "variant_id",
        "variants",
        "id",
        FkAction::Restrict,
    ));
    t.foreign_keys.push(fk(
        "rel_sale_invoice_lines_transaction_id",
        "transaction_id",
        "ledger_transactions",
        "id",
        FkAction::Restrict,
    ));
    t.foreign_keys.push(fk(
        "rel_sale_invoice_lines_tax_id",
        "tax_id",
        "taxes",
        "id",
        FkAction::Restrict,
    ));
    t.foreign_keys.push(fk(
        "rel_sale_invoice_lines_tax_transaction_id",
        "tax_transaction_id",
        "ledger_transactions",
        "id",
        FkAction::Restrict,
    ));
    t
}

/// The `purchase_orders` table, column by column and key by key.
pub open spec fn is_purchase_orders_table(t: TableSpec) -> bool {
    &&& t.name@ == "purchase_orders"@
    &&& t.columns@.len() == 7
    &&& is_pk_col(t.columns@[0], "id"@)
    &&& is_plain_col(t.columns@[1], "reference"@, ColumnType::Text)
    &&& is_plain_col(t.columns@[2], "date"@, ColumnType::Date)
    &&& is_enum_col(t.columns@[3], "status"@, "purchase_order_status"@)
    &&& is_plain_col(t.columns@[4], "supplier_id"@, ColumnType::Integer)
    &&& is_plain_col(t.columns@[5], "source_stock_id"@, ColumnType::Integer)
    &&& is_plain_col(t.columns@[6], "target_stock_id"@, ColumnType::Integer)
    &&& t.foreign_keys@.len() == 3
    &&& is_fk(
        t.foreign_keys@[0],
        "rel_purchase_orders_supplier_id"@,
        "supplier_id"@,
        "contacts"@,
        "id"@,
        FkAction::Restrict,
    )
    &&& is_fk(
        t.foreign_keys@[1],
        "rel_purchase_orders_source_stock_id"@,
        "source_stock_id"@,
        "stocks"@,
        "id"@,
        FkAction::Restrict,
    )
    &&& is_fk(
        t.foreign_keys@[2],
        "rel_purchase_orders_target_stock_id"@,
        "target_stock_id"@,
        "stocks"@,
        "id"@,
        FkAction::Restrict,
    )
}

fn table_purchase_orders() -> (t: TableSpec)
    ensures
        is_purchase_orders_table(t),
{
    let mut t = table("purchase_orders");
    t.columns.push(col_pk_auto("id"));
    t.columns.push(col("reference", ColumnType::Text));
    t.columns.push(col("date", ColumnType::Date));
    t.columns.push(col_enum("status", "purchase_order_status"));
    t.columns.push(col("supplier_id", ColumnType::Integer));
    t.columns.push(col("source_stock_id", ColumnType::Integer));
    t.columns.push(col("target_stock_id", ColumnType::Integer));
    t.foreign_keys.push(fk(
        "rel_purchase_orders_supplier_id",
        "supplier_id",
        "contacts",
        "id",
        FkAction::Restrict,
    ));
    t.foreign_keys.push(fk(
        "rel_purchase_orders_source_stock_id",
        "source_stock_id",
        "stocks",
        "id",
        FkAction::Restrict,
    ));
    t.foreign_keys.push(fk(
        "rel_purchase_orders_target_stock_id",
        "target_stock_id",
        "stocks",
        "id",
        FkAction::Restrict,
    ));
    t
}

/// The `purchase_order_lines` table, column by column and key by key.
pub open spec fn is_purchase_order_lines_table(t: TableSpec) -> bool {
    &&& t.name@ == "purchase_order_lines"@
    &&& t.columns@.len() == 8
    &&& is_pk_col(t.columns@[0], "id"@)
    &&& is_plain_col(t.columns@[1], "description"@, ColumnType::Text)
    &&& is_plain_col(t.columns@[2], "quantity"@, ColumnType::Double)
    &&& is_plain_col(t.columns@[3], "price"@, ColumnType::Integer)
    &&& is_plain_col(t.columns@[4], "tax"@, ColumnType::Integer)
    &&& is_plain_col(t.columns@[5], "order_id"@, ColumnType::Integer)
    &&& is_null_col(t.columns@[6], "variant_id"@, ColumnType::Integer)
    &&& is_null_col(t.columns@[7], "move_id"@, ColumnType::Integer)
    &&& t.foreign_keys@.len() == 3
    &&& is_fk(
        t.foreign_keys@[0],
        "rel_purchase_order_lines_order_id"@,
        "order_id"@,
        "purchase_orders"@,
        "id"@,
        FkAction::Restrict,
    )
    &&& is_fk(
        t.foreign_keys@[1],
        "rel_purchase_order_lines_variant_id"@,
        "variant_id"@,
        "variants"@,
        "id"@,
        FkAction::Restrict,
    )
    &&& is_fk(
        t.foreign_keys@[2],
        "rel_purchase_order_lines_move_id"@,
        "move_id"@,
        "stock_moves"@,
        "id"@,
        FkAction::Restrict,
    )
}

fn table_purchase_order_lines() -> (t: TableSpec)
    ensures
        is_purchase_order_lines_table(t),
{
    let mut t = table("purchase_order_lines");
    t.columns.push(col_pk_auto("id"));
    t.columns.push(col("description", ColumnType::Text));
    t.columns.push(col("quantity", ColumnType::Double));
    t.columns.push(col("price", ColumnType::Integer));
    t.columns.push(col("tax", ColumnType::Integer));
    t.columns.push(col("order_id", ColumnType::Integer));
    t.columns.push(col_null("variant_id", ColumnType::Integer));
    t.columns.push(col_null("move_id", ColumnType::Integer));
    t.foreign_keys.push(fk(
        "rel_purchase_order_lines_order_id",
        "order_id",
        "purchase_orders",
        "id",
        FkAction::Restrict,
    ));
    t.foreign_keys.push(fk(
        "rel_purchase_order_lines_variant_id",
        "variant_id",
        "variants",
        "id",
        FkAction::Restrict,
    ));
    t.foreign_keys.push(fk(
        "rel_purchase_order_lines_move_id",
        "move_id",
        "stock_moves",
        "id",
        FkAction::Restrict,
    ));
    t
}

/// The `purchase_invoices` table, column by column and key by key.
pub open spec fn is_purchase_invoices_table(t: TableSpec) -> bool {
    &&& t.name@ == "purchase_invoices"@
    &&& t.columns@.len() == 6
    &&& is_pk_col(t.columns@[0], "id"@)
    &&& is_plain_col(t.columns@[1], "reference"@, ColumnType::Text)
    &&& is_plain_col(t.columns@[2], "date"@, ColumnType::Date)
    &&& is_enum_col(t.columns@[3], "status"@, "purchase_invoice_status"@)
    &&& is_plain_col(t.columns@[4], "order_id"@, ColumnType::Integer)
    &&& is_plain_col(t.columns@[5], "supplier_id"@, ColumnType::Integer)
    &&& t.foreign_keys@.len() == 2
    &&& is_fk(
        t.foreign_keys@[0],
        "rel_purchase_invoices_order_id"@,
        "order_id"@,
        "purchase_orders"@,
        "id"@,
        FkAction::Restrict,
    )
    &&& is_fk(
        t.foreign_keys@[1],
        "rel_purchase_invoices_supplier_id"@,
        "supplier_id"@,
        "contacts"@,
        "id"@,
        FkAction::Restrict,
    )
}

fn table_purchase_invoices() -> (t: TableSpec)
    ensures
        is_purchase_invoices_table(t),
{
    let mut t = table("purchase_invoices");
    t.columns.push(col_pk_auto("id"));
    t.columns.push(col("reference", ColumnType::Text));
    t.columns.push(col("date", ColumnType::Date));
    t.columns.push(col_enum("status", "purchase_invoice_status"));
    t.columns.push(col("order_id", ColumnType::Integer));
    t.columns.push(col("supplier_id", ColumnType::Integer));
    t.foreign_keys.push(fk(
        "rel_purchase_invoices_order_id",
        "order_id",
        "purchase_orders",
        "id",
        FkAction::Restrict,
    ));
    t.foreign_keys.push(fk(
        "rel_purchase_invoices_supplier_id",
        "supplier_id",
        "contacts",
        "id",
        FkAction::Restrict,
    ));
    t
}

/// The `purchase_invoice_lines` table, column by column and key by key.
pub open spec fn is_purchase_invoice_lines_table(t: TableSpec) -> bool {
    &&& t.name@ == "purchase_invoice_lines"@
    &&& t.columns@.len() == 10
    &&& is_pk_col(t.columns@[0], "id"@)
    &&& is_plain_col(t.columns@[1], "description"@, ColumnType::Text)
    &&& is_plain_col(t.columns@[2], "quantity"@, ColumnType::Double)
    &&& is_plain_col(t.columns@[3], "price"@, ColumnType::Integer)
    &&& is_plain_col(t.columns@[4], "tax"@, ColumnType::Integer)
    &&& is_plain_col(t.columns@[5], "invoice_id"@, ColumnType::Integer)
    &&& is_null_col(t.columns@[6], "variant_id"@, ColumnType::Integer)
    &&& is_null_col(t.columns@[7], "transaction_id"@, ColumnType::Integer)
    &&& is_null_col(t.columns@[8], "tax_id"@, ColumnType::Integer)
    &&& is_null_col(t.columns@[9], "tax_transaction_id"@, ColumnType::Integer)
    &&& t.foreign_keys@.len() == 5
    &&& is_fk(
        t.foreign_keys@[0],
        "rel_purchase_invoice_lines_invoice_id"@,
        "invoice_id"@,
        "purchase_invoices"@,
        "id"@,
        FkAction::Restrict,
    )
    &&& is_fk(
        t.foreign_keys@[1],
        "rel_purchase_invoice_lines_variant_id"@,
        "variant_id"@,
        "variants"@,
        "id"@,
        FkAction::Restrict,
    )
    &&& is_fk(
        t.foreign_keys@[2],
        "rel_purchase_invoice_lines_transaction_id"@,
        "transaction_id"@,
        "ledger_transactions"@,
        "id"@,
        FkAction::Restrict,
    )
    &&& is_fk(
        t.foreign_keys@[3],
        "rel_purchase_invoice_lines_tax_id"@,
        "tax_id"@,
        "taxes"@,
        "id"@,
        FkAction::Restrict,
    )
    &&& is_fk(
        t.foreign_keys@[4],
        "rel_purchase_invoice_lines_tax_transaction_id"@,
        "tax_transaction_id"@,
        "ledger_transactions"@,
        "id"@,
        FkAction::Restrict,
    )
}

fn table_purchase_invoice_lines() -> (t: TableSpec)
    ensures
        is_purchase_invoice_lines_table(t),
{
    let mut t = table("purchase_invoice_lines");
    t.columns.push(col_pk_auto("id"));
    t.columns.push(col("description", ColumnType::Text));
    t.columns.push(col("quantity", ColumnType::Double));
    t.columns.push(col("price", ColumnType::Integer));
    t.columns.push(col("tax", ColumnType::Integer));
    t.columns.push(col("invoice_id", ColumnType::Integer));
    t.columns.push(col_null("variant_id", ColumnType::Integer));
    t.columns.push(col_null("transaction_id", ColumnType::Integer));
    t.columns.push(col_null("tax_id", ColumnType::Integer));
    t.columns.push(col_null("tax_transaction_id", ColumnType::Integer));
    t.foreign_keys.push(fk(
        "rel_purchase_invoice_lines_invoice_id",
        "invoice_id",
        "purchase_invoices",
        "id",
        FkAction::Restrict,
    ));
    t.foreign_keys.push(fk(
        "rel_purchase_invoice_lines_variant_id",
        "variant_id",
        "variants",
        "id",
        FkAction::Restrict,
    ));
    t.foreign_keys.push(fk(
        "rel_purchase_invoice_lines_transaction_id",
        "transaction_id",
        "ledger_transactions",
        "id",
        FkAction::Restrict,
    ));
    t.foreign_keys.push(fk(
        "rel_purchase_invoice_lines_tax_id",
        "tax_id",
        "taxes",
        "id",
        FkAction::Restrict,
    ));
    t.foreign_keys.push(fk(
        "rel_purchase_invoice_lines_tax_transaction_id",
        "tax_transaction_id",
        "ledger_transactions",
        "id",
        FkAction::Restrict,
    ));
    t
}

/// The whole ERP schema, every enumeration and table pinned.
pub open spec fn is_erp_schema(s: Schema) -> bool {
    &&& s.enums@.len() == 4
    &&& is_sale_order_status_enum(s.enums@[0])
    &&& is_sale_invoice_status_enum(s.enums@[1])
    &&& is_purchase_order_status_enum(s.enums@[2])
    &&& is_purchase_invoice_status_enum(s.enums@[3])
    &&& s.tables@.len() == 17
    &&& is_users_table(s.tables@[0])
    &&& is_ledger_accounts_table(s.tables@[1])
    &&& is_ledger_transactions_table(s.tables@[2])
    &&& is_contacts_table(s.tables@[3])
    &&& is_products_table(s.tables@[4])
    &&& is_variants_table(s.tables@[5])
    &&& is_stocks_table(s.tables@[6])
    &&& is_stock_moves_table(s.tables@[7])
    &&& is_taxes_table(s.tables@[8])
    &&& is_sale_orders_table(s.tables@[9])
    &&& is_sale_order_lines_table(s.tables@[10])
    &&& is_sale_invoices_table(s.tables@[11])
    &&& is_sale_invoice_lines_table(s.tables@[12])
    &&& is_purchase_orders_table(s.tables@[13])
    &&& is_purchase_order_lines_table(s.tables@[14])
    &&& is_purchase_invoices_table(s.tables@[15])
    &&& is_purchase_invoice_lines_table(s.tables@[16])
}

/// The schema the backend persists to.
pub fn erp_schema() -> (s: Schema)
    ensures
        is_erp_schema(s),
{
    let mut s = Schema { enums: Vec::new(), tables: Vec::new() };
    s.enums.push(enum_sale_order_status());
    s.enums.push(enum_sale_invoice_status());
    s.enums.push(enum_purchase_order_status());
    s.enums.push(enum_purchase_invoice_status());
    s.tables.push(table_users());
    s.tables.push(table_ledger_accounts());
    s.tables.push(table_ledger_transactions());
    s.tables.push(table_contacts());
    s.tables.push(table_products());
    s.tables.push(table_variants());
    s.tables.push(table_stocks());
    s.tables.push(table_stock_moves());
    s.tables.push(table_taxes());
    s.tables.push(table_sale_orders());
    s.tables.push(table_sale_order_lines());
    s.tables.push(table_sale_invoices());
    s.tables.push(table_sale_invoice_lines());
    s.tables.push(table_purchase_orders());
    s.tables.push(table_purchase_order_lines());
    s.tables.push(table_purchase_invoices());
    s.tables.push(table_purchase_invoice_lines());
    s
}

proof fn lemma_erp_tables_distinct(s: Schema)
    requires
        is_erp_schema(s),
    ensures
        s.tables_distinct(),
{
    reveal_strlit("users");
    reveal_strlit("ledger_accounts");
    reveal_strlit("ledger_transactions");
    reveal_strlit("contacts");
    reveal_strlit("products");
    reveal_strlit("variants");
    reveal_strlit("stocks");
    reveal_strlit("stock_moves");
    reveal_strlit("taxes");
    reveal_strlit("sale_orders");
    reveal_strlit("sale_order_lines");
    reveal_strlit("sale_invoices");
    reveal_strlit("sale_invoice_lines");
    reveal_strlit("purchase_orders");
    reveal_strlit("purchase_order_lines");
    reveal_strlit("purchase_invoices");
    reveal_strlit("purchase_invoice_lines");
    assert("users"@.len() != "ledger_accounts"@.len());
    assert("users"@ != "ledger_accounts"@);
    assert("users"@.len() != "ledger_transactions"@.len());
    assert("users"@ != "ledger_transactions"@);
    assert("users"@.len() != "contacts"@.len());
    assert("users"@ != "contacts"@);
    assert("users"@.len() != "products"@.len());
    assert("users"@ != "products"@);
    assert("users"@.len() != "variants"@.len());
    assert("users"@ != "variants"@);
    assert("users"@.len() != "stocks"@.len());
    assert("users"@ != "stocks"@);
    assert("users"@.len() != "stock_moves"@.len());
    assert("users"@ != "stock_moves"@);
    assert("users"@[0] != "taxes"@[0]);
    assert("users"@ != "taxes"@);
    assert("users"@.len() != "sale_orders"@.len());
    assert("users"@ != "sale_orders"@);
    assert("users"@.len() != "sale_order_lines"@.len());
    assert("users"@ != "sale_order_lines"@);
    assert("users"@.len() != "sale_invoices"@.len());
    assert("users"@ != "sale_invoices"@);
    assert("users"@.len() != "sale_invoice_lines"@.len());
    assert("users"@ != "sale_invoice_lines"@);
    assert("users"@.len() != "purchase_orders"@.len());
    assert("users"@ != "purchase_orders"@);
    assert("users"@.len() != "purchase_order_lines"@.len());
    assert("users"@ != "purchase_order_lines"@);
    assert("users"@.len() != "purchase_invoices"@.len());
    assert("users"@ != "purchase_invoices"@);
    assert("users"@.len() != "purchase_invoice_lines"@.len());
    assert("users"@ != "purchase_invoice_lines"@);
    assert("ledger_accounts"@.len() != "ledger_transactions"@.len());
    assert("ledger_accounts"@ != "ledger_transactions"@);
    assert("ledger_accounts"@.len() != "contacts"@.len());
    assert("ledger_accounts"@ != "contacts"@);
    assert("ledger_accounts"@.len() != "products"@.len());
    assert("ledger_accounts"@ != "products"@);
    assert("ledger_accounts"@.len() != "variants"@.len());
    assert("ledger_accounts"@ != "variants"@);
    assert("ledger_accounts"@.len() != "stocks"@.len());
    assert("ledger_accounts"@ != "stocks"@);
    assert("ledger_accounts"@.len() != "stock_moves"@.len());
    assert("ledger_accounts"@ != "stock_moves"@);
    assert("ledger_accounts"@.len() != "taxes"@.len());
    assert("ledger_accounts"@ != "taxes"@);
    assert("ledger_accounts"@.len() != "sale_orders"@.len());
    assert("ledger_accounts"@ != "sale_orders"@);
    assert("ledger_accounts"@.len() != "sale_order_lines"@.len());
    assert("ledger_accounts"@ != "sale_order_lines"@);
    assert("ledger_accounts"@.len() != "sale_invoices"@.len());
    assert("ledger_accounts"@ != "sale_invoices"@);
    assert("ledger_accounts"@.len() != "sale_invoice_lines"@.len());
    assert("ledger_accounts"@ != "sale_invoice_lines"@);
    assert("ledger_accounts"@[0] != "purchase_orders"@[0]);
    assert("ledger_accounts"@ != "purchase_orders"@);
    assert("ledger_accounts"@.len() != "purchase_order_lines"@.len());
    assert("ledger_accounts"@ != "purchase_order_lines"@);
    assert("ledger_accounts"@.len() != "purchase_invoices"@.len());
    assert("ledger_accounts"@ != "purchase_invoices"@);
    assert("ledger_accounts"@.len() != "purchase_invoice_lines"@.len());
    assert("ledger_accounts"@ != "purchase_invoice_lines"@);
    assert("ledger_transactions"@.len() != "contacts"@.len());
    assert("ledger_transactions"@ != "contacts"@);
    assert("ledger_transactions"@.len() != "products"@.len());
    assert("ledger_transactions"@ != "products"@);
    assert("ledger_transactions"@.len() != "variants"@.len());
    assert("ledger_transactions"@ != "variants"@);
    assert("ledger_transactions"@.len() != "stocks"@.len());
    assert("ledger_transactions"@ != "stocks"@);
    assert("ledger_transactions"@.len() != "stock_moves"@.len());
    assert("ledger_transactions"@ != "stock_moves"@);
    assert("ledger_transactions"@.len() != "taxes"@.len());
    assert("ledger_transactions"@ != "taxes"@);
    assert("ledger_transactions"@.len() != "sale_orders"@.len());
    assert("ledger_transactions"@ != "sale_orders"@);
    assert("ledger_transactions"@.len() != "sale_order_lines"@.len());
    assert("ledger_transactions"@ != "sale_order_lines"@);
    assert("ledger_transactions"@.len() != "sale_invoices"@.len());
    assert("ledger_transactions"@ != "sale_invoices"@);
    assert("ledger_transactions"@.len() != "sale_invoice_lines"@.len());
    assert("ledger_transactions"@ != "sale_invoice_lines"@);
    assert("ledger_transactions"@.len() != "purchase_orders"@.len());
    assert("ledger_transactions"@ != "purchase_orders"@);
    assert("ledger_transactions"@.len() != "purchase_order_lines"@.len());
    assert("ledger_transactions"@ != "purchase_order_lines"@);
    assert("ledger_transactions"@.len() != "purchase_invoices"@.len());
    assert("ledger_transactions"@ != "purchase_invoices"@);
    assert("ledger_transactions"@.len() != "purchase_invoice_lines"@.len());
    assert("ledger_transactions"@ != "purchase_invoice_lines"@);
    assert("contacts"@[0] != "products"@[0]);
    assert("contacts"@ != "products"@);
    assert("contacts"@[0] != "variants"@[0]);
    assert("contacts"@ != "variants"@);
    assert("contacts"@.len() != "stocks"@.len());
    assert("contacts"@ != "stocks"@);
    assert("contacts"@.len() != "stock_moves"@.len());
    assert("contacts"@ != "stock_moves"@);
    assert("contacts"@.len() != "taxes"@.len());
    assert("contacts"@ != "taxes"@);
    assert("contacts"@.len() != "sale_orders"@.len());
    assert("contacts"@ != "sale_orders"@);
    assert("contacts"@.len() != "sale_order_lines"@.len());
    assert("contacts"@ != "sale_order_lines"@);
    assert("contacts"@.len() != "sale_invoices"@.len());
    assert("contacts"@ != "sale_invoices"@);
    assert("contacts"@.len() != "sale_invoice_lines"@.len());
    assert("contacts"@ != "sale_invoice_lines"@);
    assert("contacts"@.len() != "purchase_orders"@.len());
    assert("contacts"@ != "purchase_orders"@);
    assert("contacts"@.len() != "purchase_order_lines"@.len());
    assert("contacts"@ != "purchase_order_lines"@);
    assert("contacts"@.len() != "purchase_invoices"@.len());
    assert("contacts"@ != "purchase_invoices"@);
    assert("contacts"@.len() != "purchase_invoice_lines"@.len());
    assert("contacts"@ != "purchase_invoice_lines"@);
    assert("products"@[0] != "variants"@[0]);
    assert("products"@ != "variants"@);
    assert("products"@.len() != "stocks"@.len());
    assert("products"@ != "stocks"@);
    assert("products"@.len() != "stock_moves"@.len());
    assert("products"@ != "stock_moves"@);
    assert("products"@.len() != "taxes"@.len());
    assert("products"@ != "taxes"@);
    assert("products"@.len() != "sale_orders"@.len());
    assert("products"@ != "sale_orders"@);
    assert("products"@.len() != "sale_order_lines"@.len());
    assert("products"@ != "sale_order_lines"@);
    assert("products"@.len() != "sale_invoices"@.len());
    assert("products"@ != "sale_invoices"@);
    assert("products"@.len() != "sale_invoice_lines"@.len());
    assert("products"@ != "sale_invoice_lines"@);
    assert("products"@.len() != "purchase_orders"@.len());
    assert("products"@ != "purchase_orders"@);
    assert("products"@.len() != "purchase_order_lines"@.len());
    assert("products"@ != "purchase_order_lines"@);
    assert("products"@.len() != "purchase_invoices"@.len());
    assert("products"@ != "purchase_invoices"@);
    assert("products"@.len() != "purchase_invoice_lines"@.len());
    assert("products"@ != "purchase_invoice_lines"@);
    assert("variants"@.len() != "stocks"@.len());
    assert("variants"@ != "stocks"@);
    assert("variants"@.len() != "stock_moves"@.len());
    assert("variants"@ != "stock_moves"@);
    assert("variants"@.len() != "taxes"@.len());
    assert("variants"@ != "taxes"@);
    assert("variants"@.len() != "sale_orders"@.len());
    assert("variants"@ != "sale_orders"@);
    assert("variants"@.len() != "sale_order_lines"@.len());
    assert("variants"@ != "sale_order_lines"@);
    assert("variants"@.len() != "sale_invoices"@.len());
    assert("variants"@ != "sale_invoices"@);
    assert("variants"@.len() != "sale_invoice_lines"@.len());
    assert("variants"@ != "sale_invoice_lines"@);
    assert("variants"@.len() != "purchase_orders"@.len());
    assert("variants"@ != "purchase_orders"@);
    assert("variants"@.len() != "purchase_order_lines"@.len());
    assert("variants"@ != "purchase_order_lines"@);
    assert("variants"@.len() != "purchase_invoices"@.len());
    assert("variants"@ != "purchase_invoices"@);
    assert("variants"@.len() != "purchase_invoice_lines"@.len());
    assert("variants"@ != "purchase_invoice_lines"@);
    assert("stocks"@.len() != "stock_moves"@.len());
    assert("stocks"@ != "stock_moves"@);
    assert("stocks"@.len() != "taxes"@.len());
    assert("stocks"@ != "taxes"@);
    assert("stocks"@.len() != "sale_orders"@.len());
    assert("stocks"@ != "sale_orders"@);
    assert("stocks"@.len() != "sale_order_lines"@.len());
    assert("stocks"@ != "sale_order_lines"@);
    assert("stocks"@.len() != "sale_invoices"@.len());
    assert("stocks"@ != "sale_invoices"@);
    assert("stocks"@.len() != "sale_invoice_lines"@.len());
    assert("stocks"@ != "sale_invoice_lines"@);
    assert("stocks"@.len() != "purchase_orders"@.len());
    assert("stocks"@ != "purchase_orders"@);
    assert("stocks"@.len() != "purchase_order_lines"@.len());
    assert("stocks"@ != "purchase_order_lines"@);
    assert("stocks"@.len() != "purchase_invoices"@.len());
    assert("stocks"@ != "purchase_invoices"@);
    assert("stocks"@.len() != "purchase_invoice_lines"@.len());
    assert("stocks"@ != "purchase_invoice_lines"@);
    assert("stock_moves"@.len() != "taxes"@.len());
    assert("stock_moves"@ != "taxes"@);
    assert("stock_moves"@[1] != "sale_orders"@[1]);
    assert("stock_moves"@ != "sale_orders"@);
    assert("stock_moves"@.len() != "sale_order_lines"@.len());
    assert("stock_moves"@ != "sale_order_lines"@);
    assert("stock_moves"@.len() != "sale_invoices"@.len());
    assert("stock_moves"@ != "sale_invoices"@);
    assert("stock_moves"@.len() != "sale_invoice_lines"@.len());
    assert("stock_moves"@ != "sale_invoice_lines"@);
    assert("stock_moves"@.len() != "purchase_orders"@.len());
    assert("stock_moves"@ != "purchase_orders"@);
    assert("stock_moves"@.len() != "purchase_order_lines"@.len());
    assert("stock_moves"@ != "purchase_order_lines"@);
    assert("stock_moves"@.len() != "purchase_invoices"@.len());
    assert("stock_moves"@ != "purchase_invoices"@);
    assert("stock_moves"@.len() != "purchase_invoice_lines"@.len());
    assert("stock_moves"@ != "purchase_invoice_lines"@);
    assert("taxes"@.len() != "sale_orders"@.len());
    assert("taxes"@ != "sale_orders"@);
    assert("taxes"@.len() != "sale_order_lines"@.len());
    assert("taxes"@ != "sale_order_lines"@);
    assert("taxes"@.len() != "sale_invoices"@.len());
    assert("taxes"@ != "sale_invoices"@);
    assert("taxes"@.len() != "sale_invoice_lines"@.len());
    assert("taxes"@ != "sale_invoice_lines"@);
    assert("taxes"@.len() != "purchase_orders"@.len());
    assert("taxes"@ != "purchase_orders"@);
    assert("taxes"@.len() != "purchase_order_lines"@.len());
    assert("taxes"@ != "purchase_order_lines"@);
    assert("taxes"@.len() != "purchase_invoices"@.len());
    assert("taxes"@ != "purchase_invoices"@);
    assert("taxes"@.len() != "purchase_invoice_lines"@.len());
    assert("taxes"@ != "purchase_invoice_lines"@);
    assert("sale_orders"@.len() != "sale_order_lines"@.len());
    assert("sale_orders"@ != "sale_order_lines"@);
    assert("sale_orders"@.len() != "sale_invoices"@.len());
    assert("sale_orders"@ != "sale_invoices"@);
    assert("sale_orders"@.len() != "sale_invoice_lines"@.len());
    assert("sale_orders"@ != "sale_invoice_lines"@);
    assert("sale_orders"@.len() != "purchase_orders"@.len());
    assert("sale_orders"@ != "purchase_orders"@);
    assert("sale_orders"@.len() != "purchase_order_lines"@.len());
    assert("sale_orders"@ != "purchase_order_lines"@);
    assert("sale_orders"@.len() != "purchase_invoices"@.len());
    assert("sale_orders"@ != "purchase_invoices"@);
    assert("sale_orders"@.len() != "purchase_invoice_lines"@.len());
    assert("sale_orders"@ != "purchase_invoice_lines"@);
    assert("sale_order_lines"@.len() != "sale_invoices"@.len());
    assert("sale_order_lines"@ != "sale_invoices"@);
    assert("sale_order_lines"@.len() != "sale_invoice_lines"@.len());
    assert("sale_order_lines"@ != "sale_invoice_lines"@);
    assert("sale_order_lines"@.len() != "purchase_orders"@.len());
    assert("sale_order_lines"@ != "purchase_orders"@);
    assert("sale_order_lines"@.len() != "purchase_order_lines"@.len());
    assert("sale_order_lines"@ != "purchase_order_lines"@);
    assert("sale_order_lines"@.len() != "purchase_invoices"@.len());
    assert("sale_order_lines"@ != "purchase_invoices"@);
    assert("sale_order_lines"@.len() != "purchase_invoice_lines"@.len());
    assert("sale_order_lines"@ != "purchase_invoice_lines"@);
    assert("sale_invoices"@.len() != "sale_invoice_lines"@.len());
    assert("sale_invoices"@ != "sale_invoice_lines"@);
    assert("sale_invoices"@.len() != "purchase_orders"@.len());
    assert("sale_invoices"@ != "purchase_orders"@);
    assert("sale_invoices"@.len() != "purchase_order_lines"@.len());
    assert("sale_invoices"@ != "purchase_order_lines"@);
    assert("sale_invoices"@.len() != "purchase_invoices"@.len());
    assert("sale_invoices"@ != "purchase_invoices"@);
    assert("sale_invoices"@.len() != "purchase_invoice_lines"@.len());
    assert("sale_invoices"@ != "purchase_invoice_lines"@);
    assert("sale_invoice_lines"@.len() != "purchase_orders"@.len());
    assert("sale_invoice_lines"@ != "purchase_orders"@);
    assert("sale_invoice_lines"@.len() != "purchase_order_lines"@.len());
    assert("sale_invoice_lines"@ != "purchase_order_lines"@);
    assert("sale_invoice_lines"@.len() != "purchase_invoices"@.len());
    assert("sale_invoice_lines"@ != "purchase_invoices"@);
    assert("sale_invoice_lines"@.len() != "purchase_invoice_lines"@.len());
    assert("sale_invoice_lines"@ != "purchase_invoice_lines"@);
    assert("purchase_orders"@.len() != "purchase_order_lines"@.len());
    assert("purchase_orders"@ != "purchase_order_lines"@);
    assert("purchase_orders"@.len() != "purchase_invoices"@.len());
    assert("purchase_orders"@ != "purchase_invoices"@);
    assert("purchase_orders"@.len() != "purchase_invoice_lines"@.len());
    assert("purchase_orders"@ != "purchase_invoice_lines"@);
    assert("purchase_order_lines"@.len() != "purchase_invoices"@.len());
    assert("purchase_order_lines"@ != "purchase_invoices"@);
    assert("purchase_order_lines"@.len() != "purchase_invoice_lines"@.len());
    assert("purchase_order_lines"@ != "purchase_invoice_lines"@);
    assert("purchase_invoices"@.len() != "purchase_invoice_lines"@.len());
    assert("purchase_invoices"@ != "purchase_invoice_lines"@);
    assert forall|i: int, j: int|
        0 <= i < j < s.tables@.len() implies #[trigger] s.tables@[i].name@
        != #[trigger] s.tables@[j].name@ by {
        assert(i == 0 || i == 1 || i == 2 || i == 3 || i == 4 || i == 5 || i == 6 || i == 7 || i == 8 || i == 9 || i == 10 || i == 11 || i == 12 || i == 13 || i == 14 || i == 15 || i == 16);
        assert(j == 0 || j == 1 || j == 2 || j == 3 || j == 4 || j == 5 || j == 6 || j == 7 || j == 8 || j == 9 || j == 10 || j == 11 || j == 12 || j == 13 || j == 14 || j == 15 || j == 16);
    }
}

proof fn lemma_users_table_ok(s: Schema)
    requires
        is_erp_schema(s),
    ensures
        s.table_ok(s.tables@[0]),
{
    let t = s.tables@[0];
    reveal_strlit("email");
    reveal_strlit("first_name");
    reveal_strlit("id");
    reveal_strlit("last_name");
    reveal_strlit("pass_hash");
    assert("email"@.len() != "first_name"@.len());
    assert("email"@ != "first_name"@);
    assert("email"@.len() != "id"@.len());
    assert("email"@ != "id"@);
    assert("email"@.len() != "last_name"@.len());
    assert("email"@ != "last_name"@);
    assert("email"@.len() != "pass_hash"@.len());
    assert("email"@ != "pass_hash"@);
    assert("first_name"@.len() != "id"@.len());
    assert("first_name"@ != "id"@);
    assert("first_name"@.len() != "last_name"@.len());
    assert("first_name"@ != "last_name"@);
    assert("first_name"@.len() != "pass_hash"@.len());
    assert("first_name"@ != "pass_hash"@);
    assert("id"@.len() != "last_name"@.len());
    assert("id"@ != "last_name"@);
    assert("id"@.len() != "pass_hash"@.len());
    assert("id"@ != "pass_hash"@);
    assert("last_name"@[0] != "pass_hash"@[0]);
    assert("last_name"@ != "pass_hash"@);
    assert forall|a: int, b: int|
        0 <= a < b < t.columns@.len() implies #[trigger] t.columns@[a].name@
        != #[trigger] t.columns@[b].name@ by {
        assert(a == 0 || a == 1 || a == 2 || a == 3 || a == 4);
        assert(b == 0 || b == 1 || b == 2 || b == 3 || b == 4);
    }
    assert(t.columns@[0].primary_key);
    assert(t.has_primary_key());
    assert forall|k: int|
        0 <= k < t.columns@.len() implies (match #[trigger] t.columns@[k].ty {
        ColumnType::Enumeration(e) => s.has_enum(e@),
        _ => true,
    }) by {
        assert(k == 0 || k == 1 || k == 2 || k == 3 || k == 4);
    }
}

proof fn lemma_ledger_accounts_table_ok(s: Schema)
    requires
        is_erp_schema(s),
    ensures
        s.table_ok(s.tables@[1]),
{
    let t = s.tables@[1];
    reveal_strlit("account_type");
    reveal_strlit("id");
    reveal_strlit("name");
    assert("account_type"@.len() != "id"@.len());
    assert("account_type"@ != "id"@);
    assert("account_type"@.len() != "name"@.len());
    assert("account_type"@ != "name"@);
    assert("id"@.len() != "name"@.len());
    assert("id"@ != "name"@);
    assert forall|a: int, b: int|
        0 <= a < b < t.columns@.len() implies #[trigger] t.columns@[a].name@
        != #[trigger] t.columns@[b].name@ by {
        assert(a == 0 || a == 1 || a == 2);
        assert(b == 0 || b == 1 || b == 2);
    }
    assert(t.columns@[0].primary_key);
    assert(t.has_primary_key());
    assert forall|k: int|
        0 <= k < t.columns@.len() implies (match #[trigger] t.columns@[k].ty {
        ColumnType::Enumeration(e) => s.has_enum(e@),
        _ => true,
    }) by {
        assert(k == 0 || k == 1 || k == 2);
    }
}

proof fn lemma_ledger_transactions_table_ok(s: Schema)
    requires
        is_erp_schema(s),
    ensures
        s.table_ok(s.tables@[2]),
{
    let t = s.tables@[2];
    reveal_strlit("amount");
    reveal_strlit("credit_account_id");
    reveal_strlit("date");
    reveal_strlit("debit_account_id");
    reveal_strlit("id");
    assert("amount"@.len() != "credit_account_id"@.len());
    assert("amount"@ != "credit_account_id"@);
    assert("amount"@.len() != "date"@.len());
    assert("amount"@ != "date"@);
    assert("amount"@.len() != "debit_account_id"@.len());
    assert("amount"@ != "debit_account_id"@);
    assert("amount"@.len() != "id"@.len());
    assert("amount"@ != "id"@);
    assert("credit_account_id"@.len() != "date"@.len());
    assert("credit_account_id"@ != "date"@);
    assert("credit_account_id"@.len() != "debit_account_id"@.len());
    assert("credit_account_id"@ != "debit_account_id"@);
    assert("credit_account_id"@.len() != "id"@.len());
    assert("credit_account_id"@ != "id"@);
    assert("date"@.len() != "debit_account_id"@.len());
    assert("date"@ != "debit_account_id"@);
    assert("date"@.len() != "id"@.len());
    assert("date"@ != "id"@);
    assert("debit_account_id"@.len() != "id"@.len());
    assert("debit_account_id"@ != "id"@);
    assert forall|a: int, b: int|
        0 <= a < b < t.columns@.len() implies #[trigger] t.columns@[a].name@
        != #[trigger] t.columns@[b].name@ by {
        assert(a == 0 || a == 1 || a == 2 || a == 3 || a == 4);
        assert(b == 0 || b == 1 || b == 2 || b == 3 || b == 4);
    }
    assert(t.columns@[0].primary_key);
    assert(t.has_primary_key());
    assert(t.columns@[3].name@ == "debit_account_id"@);
    assert(t.has_column(t.foreign_keys@[0].from_column@));
    assert(s.tables@[1].columns@[0].name@ == "id"@);
    assert(s.tables@[1].has_column("id"@));
    assert(s.has_table_column(
        t.foreign_keys@[0].to_table@,
        t.foreign_keys@[0].to_column@,
    ));
    assert(t.columns@[4].name@ == "credit_account_id"@);
    assert(t.has_column(t.foreign_keys@[1].from_column@));
    assert(s.tables@[1].columns@[0].name@ == "id"@);
    assert(s.tables@[1].has_column("id"@));
    assert(s.has_table_column(
        t.foreign_keys@[1].to_table@,
        t.foreign_keys@[1].to_column@,
    ));
    assert forall|k: int|
        0 <= k < t.foreign_keys@.len() implies t.has_column(
        #[trigger] t.foreign_keys@[k].from_column@,
    ) && s.has_table_column(t.foreign_keys@[k].to_table@, t.foreign_keys@[k].to_column@) by {
        assert(k == 0 || k == 1);
    }
    assert forall|k: int|
        0 <= k < t.columns@.len() implies (match #[trigger] t.columns@[k].ty {
        ColumnType::Enumeration(e) => s.has_enum(e@),
        _ => true,
    }) by {
        assert(k == 0 || k == 1 || k == 2 || k == 3 || k == 4);
    }
}

proof fn lemma_contacts_table_ok(s: Schema)
    requires
        is_erp_schema(s),
    ensures
        s.table_ok(s.tables@[3]),
{
    let t = s.tables@[3];
    reveal_strlit("city");
    reveal_strlit("country");
    reveal_strlit("customer_account_id");
    reveal_strlit("id");
    reveal_strlit("is_customer");
    reveal_strlit("is_supplier");
    reveal_strlit("name");
    reveal_strlit("postal_code");
    reveal_strlit("street1");
    reveal_strlit("street2");
    reveal_strlit("supplier_account_id");
    assert("city"@.len() != "country"@.len());
    assert("city"@ != "country"@);
    assert("city"@.len() != "customer_account_id"@.len());
    assert("city"@ != "customer_account_id"@);
    assert("city"@.len() != "id"@.len());
    assert("city"@ != "id"@);
    assert("city"@.len() != "is_customer"@.len());
    assert("city"@ != "is_customer"@);
    assert("city"@.len() != "is_supplier"@.len());
    assert("city"@ != "is_supplier"@);
    assert("city"@[0] != "name"@[0]);
    assert("city"@ != "name"@);
    assert("city"@.len() != "postal_code"@.len());
    assert("city"@ != "postal_code"@);
    assert("city"@.len() != "street1"@.len());
    assert("city"@ != "street1"@);
    assert("city"@.len() != "street2"@.len());
    assert("city"@ != "street2"@);
    assert("city"@.len() != "supplier_account_id"@.len());
    assert("city"@ != "supplier_account_id"@);
    assert("country"@.len() != "customer_account_id"@.len());
    assert("country"@ != "customer_account_id"@);
    assert("country"@.len() != "id"@.len());
    assert("country"@ != "id"@);
    assert("country"@.len() != "is_customer"@.len());
    assert("country"@ != "is_customer"@);
    assert("country"@.len() != "is_supplier"@.len());
    assert("country"@ != "is_supplier"@);
    assert("country"@.len() != "name"@.len());
    assert("country"@ != "name"@);
    assert("country"@.len() != "postal_code"@.len());
    assert("country"@ != "postal_code"@);
    assert("country"@[0] != "street1"@[0]);
    assert("country"@ != "street1"@);
    assert("country"@[0] != "street2"@[0]);
    assert("country"@ != "street2"@);
    assert("country"@.len() != "supplier_account_id"@.len());
    assert("country"@ != "supplier_account_id"@);
    assert("customer_account_id"@.len() != "id"@.len());
    assert("customer_account_id"@ != "id"@);
    assert("customer_account_id"@.len() != "is_customer"@.len());
    assert("customer_account_id"@ != "is_customer"@);
    assert("customer_account_id"@.len() != "is_supplier"@.len());
    assert("customer_account_id"@ != "is_supplier"@);
    assert("customer_account_id"@.len() != "name"@.len());
    assert("customer_account_id"@ != "name"@);
    assert("customer_account_id"@.len() != "postal_code"@.len());
    assert("customer_account_id"@ != "postal_code"@);
    assert("customer_account_id"@.len() != "street1"@.len());
    assert("customer_account_id"@ != "street1"@);
    assert("customer_account_id"@.len() != "street2"@.len());
    assert("customer_account_id"@ != "street2"@);
    assert("customer_account_id"@[0] != "supplier_account_id"@[0]);
    assert("customer_account_id"@ != "supplier_account_id"@);
    assert("id"@.len() != "is_customer"@.len());
    assert("id"@ != "is_customer"@);
    assert("id"@.len() != "is_supplier"@.len());
    assert("id"@ != "is_supplier"@);
    assert("id"@.len() != "name"@.len());
    assert("id"@ != "name"@);
    assert("id"@.len() != "postal_code"@.len());
    assert("id"@ != "postal_code"@);
    assert("id"@.len() != "street1"@.len());
    assert("id"@ != "street1"@);
    assert("id"@.len() != "street2"@.len());
    assert("id"@ != "street2"@);
    assert("id"@.len() != "supplier_account_id"@.len());
    assert("id"@ != "supplier_account_id"@);
    assert("is_customer"@[3] != "is_supplier"@[3]);
    assert("is_customer"@ != "is_supplier"@);
    assert("is_customer"@.len() != "name"@.len());
    assert("is_customer"@ != "name"@);
    assert("is_customer"@[0] != "postal_code"@[0]);
    assert("is_customer"@ != "postal_code"@);
    assert("is_customer"@.len() != "street1"@.len());
    assert("is_customer"@ != "street1"@);
    assert("is_customer"@.len() != "street2"@.len());
    assert("is_customer"@ != "street2"@);
    assert("is_customer"@.len() != "supplier_account_id"@.len());
    assert("is_customer"@ != "supplier_account_id"@);
    assert("is_supplier"@.len() != "name"@.len());
    assert("is_supplier"@ != "name"@);
    assert("is_supplier"@[0] != "postal_code"@[0]);
    assert("is_supplier"@ != "postal_code"@);
    assert("is_supplier"@.len() != "street1"@.len());
    assert("is_supplier"@ != "street1"@);
    assert("is_supplier"@.len() != "street2"@.len());
    assert("is_supplier"@ != "street2"@);
    assert("is_supplier"@.len() != "supplier_account_id"@.len());
    assert("is_supplier"@ != "supplier_account_id"@);
    assert("name"@.len() != "postal_code"@.len());
    assert("name"@ != "postal_code"@);
    assert("name"@.len() != "street1"@.len());
    assert("name"@ != "street1"@);
    assert("name"@.len() != "street2"@.len());
    assert("name"@ != "street2"@);
    assert("name"@.len() != "supplier_account_id"@.len());
    assert("name"@ != "supplier_account_id"@);
    assert("postal_code"@.len() != "street1"@.len());
    assert("postal_code"@ != "street1"@);
    assert("postal_code"@.len() != "street2"@.len());
    assert("postal_code"@ != "street2"@);
    assert("postal_code"@.len() != "supplier_account_id"@.len());
    assert("postal_code"@ != "supplier_account_id"@);
    assert("street1"@[6] != "street2"@[6]);
    assert("street1"@ != "street2"@);
    assert("street1"@.len() != "supplier_account_id"@.len());
    assert("street1"@ != "supplier_account_id"@);
    assert("street2"@.len() != "supplier_account_id"@.len());
    assert("street2"@ != "supplier_account_id"@);
    assert forall|a: int, b: int|
        0 <= a < b < t.columns@.len() implies #[trigger] t.columns@[a].name@
        != #[trigger] t.columns@[b].name@ by {
        assert(a == 0 || a == 1 || a == 2 || a == 3 || a == 4 || a == 5 || a == 6 || a == 7 || a == 8 || a == 9 || a == 10);
        assert(b == 0 || b == 1 || b == 2 || b == 3 || b == 4 || b == 5 || b == 6 || b == 7 || b == 8 || b == 9 || b == 10);
    }
    assert(t.columns@[0].primary_key);
    assert(t.has_primary_key());
    assert(t.columns@[9].name@ == "customer_account_id"@);
    assert(t.has_column(t.foreign_keys@[0].from_column@));
    assert(s.tables@[1].columns@[0].name@ == "id"@);
    assert(s.tables@[1].has_column("id"@));
    assert(s.has_table_column(
        t.foreign_keys@[0].to_table@,
        t.foreign_keys@[0].to_column@,
    ));
    assert(t.columns@[10].name@ == "supplier_account_id"@);
    assert(t.has_column(t.foreign_keys@[1].from_column@));
    assert(s.tables@[1].columns@[0].name@ == "id"@);
    assert(s.tables@[1].has_column("id"@));
    assert(s.has_table_column(
        t.foreign_keys@[1].to_table@,
        t.foreign_keys@[1].to_column@,
    ));
    assert forall|k: int|
        0 <= k < t.foreign_keys@.len() implies t.has_column(
        #[trigger] t.foreign_keys@[k].from_column@,
    ) && s.has_table_column(t.foreign_keys@[k].to_table@, t.foreign_keys@[k].to_column@) by {
        assert(k == 0 || k == 1);
    }
    assert forall|k: int|
        0 <= k < t.columns@.len() implies (match #[trigger] t.columns@[k].ty {
        ColumnType::Enumeration(e) => s.has_enum(e@),
        _ => true,
    }) by {
        assert(k == 0 || k == 1 || k == 2 || k == 3 || k == 4 || k == 5 || k == 6 || k == 7 || k == 8 || k == 9 || k == 10);
    }
}

proof fn lemma_products_table_ok(s: Schema)
    requires
        is_erp_schema(s),
    ensures
        s.table_ok(s.tables@[4]),
{
    let t = s.tables@[4];
    reveal_strlit("id");
    reveal_strlit("name");
    assert("id"@.len() != "name"@.len());
    assert("id"@ != "name"@);
    assert forall|a: int, b: int|
        0 <= a < b < t.columns@.len() implies #[trigger] t.columns@[a].name@
        != #[trigger] t.columns@[b].name@ by {
        assert(a == 0 || a == 1);
        assert(b == 0 || b == 1);
    }
    assert(t.columns@[0].primary_key);
    assert(t.has_primary_key());
    assert forall|k: int|
        0 <= k < t.columns@.len() implies (match #[trigger] t.columns@[k].ty {
        ColumnType::Enumeration(e) => s.has_enum(e@),
        _ => true,
    }) by {
        assert(k == 0 || k == 1);
    }
}

proof fn lemma_variants_table_ok(s: Schema)
    requires
        is_erp_schema(s),
    ensures
        s.table_ok(s.tables@[5]),
{
    let t = s.tables@[5];
    reveal_strlit("id");
    reveal_strlit("name");
    reveal_strlit("product_id");
    reveal_strlit("purchase_price");
    reveal_strlit("sale_price");
    assert("id"@.len() != "name"@.len());
    assert("id"@ != "name"@);
    assert("id"@.len() != "product_id"@.len());
    assert("id"@ != "product_id"@);
    assert("id"@.len() != "purchase_price"@.len());
    assert("id"@ != "purchase_price"@);
    assert("id"@.len() != "sale_price"@.len());
    assert("id"@ != "sale_price"@);
    assert("name"@.len() != "product_id"@.len());
    assert("name"@ != "product_id"@);
    assert("name"@.len() != "purchase_price"@.len());
    assert("name"@ != "purchase_price"@);
    assert("name"@.len() != "sale_price"@.len());
    assert("name"@ != "sale_price"@);
    assert("product_id"@.len() != "purchase_price"@.len());
    assert("product_id"@ != "purchase_price"@);
    assert("product_id"@[0] != "sale_price"@[0]);
    assert("product_id"@ != "sale_price"@);
    assert("purchase_price"@.len() != "sale_price"@.len());
    assert("purchase_price"@ != "sale_price"@);
    assert forall|a: int, b: int|
        0 <= a < b < t.columns@.len() implies #[trigger] t.columns@[a].name@
        != #[trigger] t.columns@[b].name@ by {
        assert(a == 0 || a == 1 || a == 2 || a == 3 || a == 4);
        assert(b == 0 || b == 1 || b == 2 || b == 3 || b == 4);
    }
    assert(t.columns@[0].primary_key);
    assert(t.has_primary_key());
    assert(t.columns@[4].name@ == "product_id"@);
    assert(t.has_column(t.foreign_keys@[0].from_column@));
    assert(s.tables@[4].columns@[0].name@ == "id"@);
    assert(s.tables@[4].has_column("id"@));
    assert(s.has_table_column(
        t.foreign_keys@[0].to_table@,
        t.foreign_keys@[0].to_column@,
    ));
    assert forall|k: int|
        0 <= k < t.foreign_keys@.len() implies t.has_column(
        #[trigger] t.foreign_keys@[k].from_column@,
    ) && s.has_table_column(t.foreign_keys@[k].to_table@, t.foreign_keys@[k].to_column@) by {
        assert(k == 0);
    }
    assert forall|k: int|
        0 <= k < t.columns@.len() implies (match #[trigger] t.columns@[k].ty {
        ColumnType::Enumeration(e) => s.has_enum(e@),
        _ => true,
    }) by {
        assert(k == 0 || k == 1 || k == 2 || k == 3 || k == 4);
    }
}

proof fn lemma_stocks_table_ok(s: Schema)
    requires
        is_erp_schema(s),
    ensures
        s.table_ok(s.tables@[6]),
{
    let t = s.tables@[6];
    reveal_strlit("id");
    reveal_strlit("is_own");
    reveal_strlit("name");
    reveal_strlit("owner_id");
    assert("id"@.len() != "is_own"@.len());
    assert("id"@ != "is_own"@);
    assert("id"@.len() != "name"@.len());
    assert("id"@ != "name"@);
    assert("id"@.len() != "owner_id"@.len());
    assert("id"@ != "owner_id"@);
    assert("is_own"@.len() != "name"@.len());
    assert("is_own"@ != "name"@);
    assert("is_own"@.len() != "owner_id"@.len());
    assert("is_own"@ != "owner_id"@);
    assert("name"@.len() != "owner_id"@.len());
    assert("name"@ != "owner_id"@);
    assert forall|a: int, b: int|
        0 <= a < b < t.columns@.len() implies #[trigger] t.columns@[a].name@
        != #[trigger] t.columns@[b].name@ by {
        assert(a == 0 || a == 1 || a == 2 || a == 3);
        assert(b == 0 || b == 1 || b == 2 || b == 3);
    }
    assert(t.columns@[0].primary_key);
    assert(t.has_primary_key());
    assert(t.columns@[3].name@ == "owner_id"@);
    assert(t.has_column(t.foreign_keys@[0].from_column@));
    assert(s.tables@[3].columns@[0].name@ == "id"@);
    assert(s.tables@[3].has_column("id"@));
    assert(s.has_table_column(
        t.foreign_keys@[0].to_table@,
        t.foreign_keys@[0].to_column@,
    ));
    assert forall|k: int|
        0 <= k < t.foreign_keys@.len() implies t.has_column(
        #[trigger] t.foreign_keys@[k].from_column@,
    ) && s.has_table_column(t.foreign_keys@[k].to_table@, t.foreign_keys@[k].to_column@) by {
        assert(k == 0);
    }
    assert forall|k: int|
        0 <= k < t.columns@.len() implies (match #[trigger] t.columns@[k].ty {
        ColumnType::Enumeration(e) => s.has_enum(e@),
        _ => true,
    }) by {
        assert(k == 0 || k == 1 || k == 2 || k == 3);
    }
}

proof fn lemma_stock_moves_table_ok(s: Schema)
    requires
        is_erp_schema(s),
    ensures
        s.table_ok(s.tables@[7]),
{
    let t = s.tables@[7];
    reveal_strlit("id");
    reveal_strlit("quantity");
    reveal_strlit("source_stock_id");
    reveal_strlit("target_stock_id");
    reveal_strlit("variant_id");
    assert("id"@.len() != "quantity"@.len());
    assert("id"@ != "quantity"@);
    assert("id"@.len() != "source_stock_id"@.len());
    assert("id"@ != "source_stock_id"@);
    assert("id"@.len() != "target_stock_id"@.len());
    assert("id"@ != "target_stock_id"@);
    assert("id"@.len() != "variant_id"@.len());
    assert("id"@ != "variant_id"@);
    assert("quantity"@.len() != "source_stock_id"@.len());
    assert("quantity"@ != "source_stock_id"@);
    assert("quantity"@.len() != "target_stock_id"@.len());
    assert("quantity"@ != "target_stock_id"@);
    assert("quantity"@.len() != "variant_id"@.len());
    assert("quantity"@ != "variant_id"@);
    assert("source_stock_id"@[0] != "target_stock_id"@[0]);
    assert("source_stock_id"@ != "target_stock_id"@);
    assert("source_stock_id"@.len() != "variant_id"@.len());
    assert("source_stock_id"@ != "variant_id"@);
    assert("target_stock_id"@.len() != "variant_id"@.len());
    assert("target_stock_id"@ != "variant_id"@);
    assert forall|a: int, b: int|
        0 <= a < b < t.columns@.len() implies #[trigger] t.columns@[a].name@
        != #[trigger] t.columns@[b].name@ by {
        assert(a == 0 || a == 1 || a == 2 || a == 3 || a == 4);
        assert(b == 0 || b == 1 || b == 2 || b == 3 || b == 4);
    }
    assert(t.columns@[0].primary_key);
    assert(t.has_primary_key());
    assert(t.columns@[2].name@ == "variant_id"@);
    assert(t.has_column(t.foreign_keys@[0].from_column@));
    assert(s.tables@[5].columns@[0].name@ == "id"@);
    assert(s.tables@[5].has_column("id"@));
    assert(s.has_table_column(
        t.foreign_keys@[0].to_table@,
        t.foreign_keys@[0].to_column@,
    ));
    assert(t.columns@[3].name@ == "source_stock_id"@);
    assert(t.has_column(t.foreign_keys@[1].from_column@));
    assert(s.tables@[6].columns@[0].name@ == "id"@);
    assert(s.tables@[6].has_column("id"@));
    assert(s.has_table_column(
        t.foreign_keys@[1].to_table@,
        t.foreign_keys@[1].to_column@,
    ));
    assert(t.columns@[4].name@ == "target_stock_id"@);
    assert(t.has_column(t.foreign_keys@[2].from_column@));
    assert(s.tables@[6].columns@[0].name@ == "id"@);
    assert(s.tables@[6].has_column("id"@));
    assert(s.has_table_column(
        t.foreign_keys@[2].to_table@,
        t.foreign_keys@[2].to_column@,
    ));
    assert forall|k: int|
        0 <= k < t.foreign_keys@.len() implies t.has_column(
        #[trigger] t.foreign_keys@[k].from_column@,
    ) && s.has_table_column(t.foreign_keys@[k].to_table@, t.foreign_keys@[k].to_column@) by {
        assert(k == 0 || k == 1 || k == 2);
    }
    assert forall|k: int|
        0 <= k < t.columns@.len() implies (match #[trigger] t.columns@[k].ty {
        ColumnType::Enumeration(e) => s.has_enum(e@),
        _ => true,
    }) by {
        assert(k == 0 || k == 1 || k == 2 || k == 3 || k == 4);
    }
}

proof fn lemma_taxes_table_ok(s: Schema)
    requires
        is_erp_schema(s),
    ensures
        s.table_ok(s.tables@[8]),
{
    let t = s.tables@[8];
    reveal_strlit("account_id");
    reveal_strlit("id");
    reveal_strlit("name");
    reveal_strlit("name_short");
    reveal_strlit("rate");
    assert("account_id"@.len() != "id"@.len());
    assert("account_id"@ != "id"@);
    assert("account_id"@.len() != "name"@.len());
    assert("account_id"@ != "name"@);
    assert("account_id"@[0] != "name_short"@[0]);
    assert("account_id"@ != "name_short"@);
    assert("account_id"@.len() != "rate"@.len());
    assert("account_id"@ != "rate"@);
    assert("id"@.len() != "name"@.len());
    assert("id"@ != "name"@);
    assert("id"@.len() != "name_short"@.len());
    assert("id"@ != "name_short"@);
    assert("id"@.len() != "rate"@.len());
    assert("id"@ != "rate"@);
    assert("name"@.len() != "name_short"@.len());
    assert("name"@ != "name_short"@);
    assert("name"@[0] != "rate"@[0]);
    assert("name"@ != "rate"@);
    assert("name_short"@.len() != "rate"@.len());
    assert("name_short"@ != "rate"@);
    assert forall|a: int, b: int|
        0 <= a < b < t.columns@.len() implies #[trigger] t.columns@[a].name@
        != #[trigger] t.columns@[b].name@ by {
        assert(a == 0 || a == 1 || a == 2 || a == 3 || a == 4);
        assert(b == 0 || b == 1 || b == 2 || b == 3 || b == 4);
    }
    assert(t.columns@[0].primary_key);
    assert(t.has_primary_key());
    assert(t.columns@[4].name@ == "account_id"@);
    assert(t.has_column(t.foreign_keys@[0].from_column@));
    assert(s.tables@[1].columns@[0].name@ == "id"@);
    assert(s.tables@[1].has_column("id"@));
    assert(s.has_table_column(
        t.foreign_keys@[0].to_table@,
        t.foreign_keys@[0].to_column@,
    ));
    assert forall|k: int|
        0 <= k < t.foreign_keys@.len() implies t.has_column(
        #[trigger] t.foreign_keys@[k].from_column@,
    ) && s.has_table_column(t.foreign_keys@[k].to_table@, t.foreign_keys@[k].to_column@) by {
        assert(k == 0);
    }
    assert forall|k: int|
        0 <= k < t.columns@.len() implies (match #[trigger] t.columns@[k].ty {
        ColumnType::Enumeration(e) => s.has_enum(e@),
        _ => true,
    }) by {
        assert(k == 0 || k == 1 || k == 2 || k == 3 || k == 4);
    }
}

proof fn lemma_sale_orders_table_ok(s: Schema)
    requires
        is_erp_schema(s),
    ensures
        s.table_ok(s.tables@[9]),
{
    let t = s.tables@[9];
    reveal_strlit("customer_id");
    reveal_strlit("date");
    reveal_strlit("id");
    reveal_strlit("reference");
    reveal_strlit("source_stock_id");
    reveal_strlit("status");
    reveal_strlit("target_stock_id");
    assert("customer_id"@.len() != "date"@.len());
    assert("customer_id"@ != "date"@);
    assert("customer_id"@.len() != "id"@.len());
    assert("customer_id"@ != "id"@);
    assert("customer_id"@.len() != "reference"@.len());
    assert("customer_id"@ != "reference"@);
    assert("customer_id"@.len() != "source_stock_id"@.len());
    assert("customer_id"@ != "source_stock_id"@);
    assert("customer_id"@.len() != "status"@.len());
    assert("customer_id"@ != "status"@);
    assert("customer_id"@.len() != "target_stock_id"@.len());
    assert("customer_id"@ != "target_stock_id"@);
    assert("date"@.len() != "id"@.len());
    assert("date"@ != "id"@);
    assert("date"@.len() != "reference"@.len());
    assert("date"@ != "reference"@);
    assert("date"@.len() != "source_stock_id"@.len());
    assert("date"@ != "source_stock_id"@);
    assert("date"@.len() != "status"@.len());
    assert("date"@ != "status"@);
    assert("date"@.len() != "target_stock_id"@.len());
    assert("date"@ != "target_stock_id"@);
    assert("id"@.len() != "reference"@.len());
    assert("id"@ != "reference"@);
    assert("id"@.len() != "source_stock_id"@.len());
    assert("id"@ != "source_stock_id"@);
    assert("id"@.len() != "status"@.len());
    assert("id"@ != "status"@);
    assert("id"@.len() != "target_stock_id"@.len());
    assert("id"@ != "target_stock_id"@);
    assert("reference"@.len() != "source_stock_id"@.len());
    assert("reference"@ != "source_stock_id"@);
    assert("reference"@.len() != "status"@.len());
    assert("reference"@ != "status"@);
    assert("reference"@.len() != "target_stock_id"@.len());
    assert("reference"@ != "target_stock_id"@);
    assert("source_stock_id"@.len() != "status"@.len());
    assert("source_stock_id"@ != "status"@);
    assert("source_stock_id"@[0] != "target_stock_id"@[0]);
    assert("source_stock_id"@ != "target_stock_id"@);
    assert("status"@.len() != "target_stock_id"@.len());
    assert("status"@ != "target_stock_id"@);
    assert forall|a: int, b: int|
        0 <= a < b < t.columns@.len() implies #[trigger] t.columns@[a].name@
        != #[trigger] t.columns@[b].name@ by {
        assert(a == 0 || a == 1 || a == 2 || a == 3 || a == 4 || a == 5 || a == 6);
        assert(b == 0 || b == 1 || b == 2 || b == 3 || b == 4 || b == 5 || b == 6);
    }
    assert(t.columns@[0].primary_key);
    assert(t.has_primary_key());
    assert(t.columns@[4].name@ == "customer_id"@);
    assert(t.has_column(t.foreign_keys@[0].from_column@));
    assert(s.tables@[3].columns@[0].name@ == "id"@);
    assert(s.tables@[3].has_column("id"@));
    assert(s.has_table_column(
        t.foreign_keys@[0].to_table@,
        t.foreign_keys@[0].to_column@,
    ));
    assert(t.columns@[5].name@ == "source_stock_id"@);
    assert(t.has_column(t.foreign_keys@[1].from_column@));
    assert(s.tables@[6].columns@[0].name@ == "id"@);
    assert(s.tables@[6].has_column("id"@));
    assert(s.has_table_column(
        t.foreign_keys@[1].to_table@,
        t.foreign_keys@[1].to_column@,
    ));
    assert(t.columns@[6].name@ == "target_stock_id"@);
    assert(t.has_column(t.foreign_keys@[2].from_column@));
    assert(s.tables@[6].columns@[0].name@ == "id"@);
    assert(s.tables@[6].has_column("id"@));
    assert(s.has_table_column(
        t.foreign_keys@[2].to_table@,
        t.foreign_keys@[2].to_column@,
    ));
    assert forall|k: int|
        0 <= k < t.foreign_keys@.len() implies t.has_column(
        #[trigger] t.foreign_keys@[k].from_column@,
    ) && s.has_table_column(t.foreign_keys@[k].to_table@, t.foreign_keys@[k].to_column@) by {
        assert(k == 0 || k == 1 || k == 2);
    }
    assert(s.enums@[0].name@ == "sale_order_status"@);
    assert(s.has_enum("sale_order_status"@));
    assert forall|k: int|
        0 <= k < t.columns@.len() implies (match #[trigger] t.columns@[k].ty {
        ColumnType::Enumeration(e) => s.has_enum(e@),
        _ => true,
    }) by {
        assert(k == 0 || k == 1 || k == 2 || k == 3 || k == 4 || k == 5 || k == 6);
    }
}

proof fn lemma_sale_order_lines_table_ok(s: Schema)
    requires
        is_erp_schema(s),
    ensures
        s.table_ok(s.tables@[10]),
{
    let t = s.tables@[10];
    reveal_strlit("description");
    reveal_strlit("id");
    reveal_strlit("move_id");
    reveal_strlit("order_id");
    reveal_strlit("price");
    reveal_strlit("quantity");
    reveal_strlit("tax");
    reveal_strlit("variant_id");
    assert("description"@.len() != "id"@.len());
    assert("description"@ != "id"@);
    assert("description"@.len() != "move_id"@.len());
    assert("description"@ != "move_id"@);
    assert("description"@.len() != "order_id"@.len());
    assert("description"@ != "order_id"@);
    assert("description"@.len() != "price"@.len());
    assert("description"@ != "price"@);
    assert("description"@.len() != "quantity"@.len());
    assert("description"@ != "quantity"@);
    assert("description"@.len() != "tax"@.len());
    assert("description"@ != "tax"@);
    assert("description"@.len() != "variant_id"@.len());
    assert("description"@ != "variant_id"@);
    assert("id"@.len() != "move_id"@.len());
    assert("id"@ != "move_id"@);
    assert("id"@.len() != "order_id"@.len());
    assert("id"@ != "order_id"@);
    assert("id"@.len() != "price"@.len());
    assert("id"@ != "price"@);
    assert("id"@.len() != "quantity"@.len());
    assert("id"@ != "quantity"@);
    assert("id"@.len() != "tax"@.len());
    assert("id"@ != "tax"@);
    assert("id"@.len() != "variant_id"@.len());
    assert("id"@ != "variant_id"@);
    assert("move_id"@.len() != "order_id"@.len());
    assert("move_id"@ != "order_id"@);
    assert("move_id"@.len() != "price"@.len());
    assert("move_id"@ != "price"@);
    assert("move_id"@.len() != "quantity"@.len());
    assert("move_id"@ != "quantity"@);
    assert("move_id"@.len() != "tax"@.len());
    assert("move_id"@ != "tax"@);
    assert("move_id"@.len() != "variant_id"@.len());
    assert("move_id"@ != "variant_id"@);
    assert("order_id"@.len() != "price"@.len());
    assert("order_id"@ != "price"@);
    assert("order_id"@[0] != "quantity"@[0]);
    assert("order_id"@ != "quantity"@);
    assert("order_id"@.len() != "tax"@.len());
    assert("order_id"@ != "tax"@);
    assert("order_id"@.len() != "variant_id"@.len());
    assert("order_id"@ != "variant_id"@);
    assert("price"@.len() != "quantity"@.len());
    assert("price"@ != "quantity"@);
    assert("price"@.len() != "tax"@.len());
    assert("price"@ != "tax"@);
    assert("price"@.len() != "variant_id"@.len());
    assert("price"@ != "variant_id"@);
    assert("quantity"@.len() != "tax"@.len());
    assert("quantity"@ != "tax"@);
    assert("quantity"@.len() != "variant_id"@.len());
    assert("quantity"@ != "variant_id"@);
    assert("tax"@.len() != "variant_id"@.len());
    assert("tax"@ != "variant_id"@);
    assert forall|a: int, b: int|
        0 <= a < b < t.columns@.len() implies #[trigger] t.columns@[a].name@
        != #[trigger] t.columns@[b].name@ by {
        assert(a == 0 || a == 1 || a == 2 || a == 3 || a == 4 || a == 5 || a == 6 || a == 7);
        assert(b == 0 || b == 1 || b == 2 || b == 3 || b == 4 || b == 5 || b == 6 || b == 7);
    }
    assert(t.columns@[0].primary_key);
    assert(t.has_primary_key());
    assert(t.columns@[5].name@ == "order_id"@);
    assert(t.has_column(t.foreign_keys@[0].from_column@));
    assert(s.tables@[9].columns@[0].name@ == "id"@);
    assert(s.tables@[9].has_column("id"@));
    assert(s.has_table_column(
        t.foreign_keys@[0].to_table@,
        t.foreign_keys@[0].to_column@,
    ));
    assert(t.columns@[6].name@ == "variant_id"@);
    assert(t.has_column(t.foreign_keys@[1].from_column@));
    assert(s.tables@[5].columns@[0].name@ == "id"@);
    assert(s.tables@[5].has_column("id"@));
    assert(s.has_table_column(
        t.foreign_keys@[1].to_table@,
        t.foreign_keys@[1].to_column@,
    ));
    assert(t.columns@[7].name@ == "move_id"@);
    assert(t.has_column(t.foreign_keys@[2].from_column@));
    assert(s.tables@[7].columns@[0].name@ == "id"@);
    assert(s.tables@[7].has_column("id"@));
    assert(s.has_table_column(
        t.foreign_keys@[2].to_table@,
        t.foreign_keys@[2].to_column@,
    ));
    assert forall|k: int|
        0 <= k < t.foreign_keys@.len() implies t.has_column(
        #[trigger] t.foreign_keys@[k].from_column@,
    ) && s.has_table_column(t.foreign_keys@[k].to_table@, t.foreign_keys@[k].to_column@) by {
        assert(k == 0 || k == 1 || k == 2);
    }
    assert forall|k: int|
        0 <= k < t.columns@.len() implies (match #[trigger] t.columns@[k].ty {
        ColumnType::Enumeration(e) => s.has_enum(e@),
        _ => true,
    }) by {
        assert(k == 0 || k == 1 || k == 2 || k == 3 || k == 4 || k == 5 || k == 6 || k == 7);
    }
}

proof fn lemma_sale_invoices_table_ok(s: Schema)
    requires
        is_erp_schema(s),
    ensures
        s.table_ok(s.tables@[11]),
{
    let t = s.tables@[11];
    reveal_strlit("customer_id");
    reveal_strlit("date");
    reveal_strlit("id");
    reveal_strlit("order_id");
    reveal_strlit("reference");
    reveal_strlit("status");
    assert("customer_id"@.len() != "date"@.len());
    assert("customer_id"@ != "date"@);
    assert("customer_id"@.len() != "id"@.len());
    assert("customer_id"@ != "id"@);
    assert("customer_id"@.len() != "order_id"@.len());
    assert("customer_id"@ != "order_id"@);
    assert("customer_id"@.len() != "reference"@.len());
    assert("customer_id"@ != "reference"@);
    assert("customer_id"@.len() != "status"@.len());
    assert("customer_id"@ != "status"@);
    assert("date"@.len() != "id"@.len());
    assert("date"@ != "id"@);
    assert("date"@.len() != "order_id"@.len());
    assert("date"@ != "order_id"@);
    assert("date"@.len() != "reference"@.len());
    assert("date"@ != "reference"@);
    assert("date"@.len() != "status"@.len());
    assert("date"@ != "status"@);
    assert("id"@.len() != "order_id"@.len());
    assert("id"@ != "order_id"@);
    assert("id"@.len() != "reference"@.len());
    assert("id"@ != "reference"@);
    assert("id"@.len() != "status"@.len());
    assert("id"@ != "status"@);
    assert("order_id"@.len() != "reference"@.len());
    assert("order_id"@ != "reference"@);
    assert("order_id"@.len() != "status"@.len());
    assert("order_id"@ != "status"@);
    assert("reference"@.len() != "status"@.len());
    assert("reference"@ != "status"@);
    assert forall|a: int, b: int|
        0 <= a < b < t.columns@.len() implies #[trigger] t.columns@[a].name@
        != #[trigger] t.columns@[b].name@ by {
        assert(a == 0 || a == 1 || a == 2 || a == 3 || a == 4 || a == 5);
        assert(b == 0 || b == 1 || b == 2 || b == 3 || b == 4 || b == 5);
    }
    assert(t.columns@[0].primary_key);
    assert(t.has_primary_key());
    assert(t.columns@[4].name@ == "order_id"@);
    assert(t.has_column(t.foreign_keys@[0].from_column@));
    assert(s.tables@[9].columns@[0].name@ == "id"@);
    assert(s.tables@[9].has_column("id"@));
    assert(s.has_table_column(
        t.foreign_keys@[0].to_table@,
        t.foreign_keys@[0].to_column@,
    ));
    assert(t.columns@[5].name@ == "customer_id"@);
    assert(t.has_column(t.foreign_keys@[1].from_column@));
    assert(s.tables@[3].columns@[0].name@ == "id"@);
    assert(s.tables@[3].has_column("id"@));
    assert(s.has_table_column(
        t.foreign_keys@[1].to_table@,
        t.foreign_keys@[1].to_column@,
    ));
    assert forall|k: int|
        0 <= k < t.foreign_keys@.len() implies t.has_column(
        #[trigger] t.foreign_keys@[k].from_column@,
    ) && s.has_table_column(t.foreign_keys@[k].to_table@, t.foreign_keys@[k].to_column@) by {
        assert(k == 0 || k == 1);
    }
    assert(s.enums@[1].name@ == "sale_invoice_status"@);
    assert(s.has_enum("sale_invoice_status"@));
    assert forall|k: int|
        0 <= k < t.columns@.len() implies (match #[trigger] t.columns@[k].ty {
        ColumnType::Enumeration(e) => s.has_enum(e@),
        _ => true,
    }) by {
        assert(k == 0 || k == 1 || k == 2 || k == 3 || k == 4 || k == 5);
    }
}

proof fn lemma_sale_invoice_lines_table_ok(s: Schema)
    requires
        is_erp_schema(s),
    ensures
        s.table_ok(s.tables@[12]),
{
    let t = s.tables@[12];
    reveal_strlit("description");
    reveal_strlit("id");
    reveal_strlit("invoice_id");
    reveal_strlit("price");
    reveal_strlit("quantity");
    reveal_strlit("tax");
    reveal_strlit("tax_id");
    reveal_strlit("tax_transaction_id");
    reveal_strlit("transaction_id");
    reveal_strlit("variant_id");
    assert("description"@.len() != "id"@.len());
    assert("description"@ != "id"@);
    assert("description"@.len() != "invoice_id"@.len());
    assert("description"@ != "invoice_id"@);
    assert("description"@.len() != "price"@.len());
    assert("description"@ != "price"@);
    assert("description"@.len() != "quantity"@.len());
    assert("description"@ != "quantity"@);
    assert("description"@.len() != "tax"@.len());
    assert("description"@ != "tax"@);
    assert("description"@.len() != "tax_id"@.len());
    assert("description"@ != "tax_id"@);
    assert("description"@.len() != "tax_transaction_id"@.len());
    assert("description"@ != "tax_transaction_id"@);
    assert("description"@.len() != "transaction_id"@.len());
    assert("description"@ != "transaction_id"@);
    assert("description"@.len() != "variant_id"@.len());
    assert("description"@ != "variant_id"@);
    assert("id"@.len() != "invoice_id"@.len());
    assert("id"@ != "invoice_id"@);
    assert("id"@.len() != "price"@.len());
    assert("id"@ != "price"@);
    assert("id"@.len() != "quantity"@.len());
    assert("id"@ != "quantity"@);
    assert("id"@.len() != "tax"@.len());
    assert("id"@ != "tax"@);
    assert("id"@.len() != "tax_id"@.len());
    assert("id"@ != "tax_id"@);
    assert("id"@.len() != "tax_transaction_id"@.len());
    assert("id"@ != "tax_transaction_id"@);
    assert("id"@.len() != "transaction_id"@.len());
    assert("id"@ != "transaction_id"@);
    assert("id"@.len() != "variant_id"@.len());
    assert("id"@ != "variant_id"@);
    assert("invoice_id"@.len() != "price"@.len());
    assert("invoice_id"@ != "price"@);
    assert("invoice_id"@.len() != "quantity"@.len());
    assert("invoice_id"@ != "quantity"@);
    assert("invoice_id"@.len() != "tax"@.len());
    assert("invoice_id"@ != "tax"@);
    assert("invoice_id"@.len() != "tax_id"@.len());
    assert("invoice_id"@ != "tax_id"@);
    assert("invoice_id"@.len() != "tax_transaction_id"@.len());
    assert("invoice_id"@ != "tax_transaction_id"@);
    assert("invoice_id"@.len() != "transaction_id"@.len());
    assert("invoice_id"@ != "transaction_id"@);
    assert("invoice_id"@[0] != "variant_id"@[0]);
    assert("invoice_id"@ != "variant_id"@);
    assert("price"@.len() != "quantity"@.len());
    assert("price"@ != "quantity"@);
    assert("price"@.len() != "tax"@.len());
    assert("price"@ != "tax"@);
    assert("price"@.len() != "tax_id"@.len());
    assert("price"@ != "tax_id"@);
    assert("price"@.len() != "tax_transaction_id"@.len());
    assert("price"@ != "tax_transaction_id"@);
    assert("price"@.len() != "transaction_id"@.len());
    assert("price"@ != "transaction_id"@);
    assert("price"@.len() != "variant_id"@.len());
    assert("price"@ != "variant_id"@);
    assert("quantity"@.len() != "tax"@.len());
    assert("quantity"@ != "tax"@);
    assert("quantity"@.len() != "tax_id"@.len());
    assert("quantity"@ != "tax_id"@);
    assert("quantity"@.len() != "tax_transaction_id"@.len());
    assert("quantity"@ != "tax_transaction_id"@);
    assert("quantity"@.len() != "transaction_id"@.len());
    assert("quantity"@ != "transaction_id"@);
    assert("quantity"@.len() != "variant_id"@.len());
    assert("quantity"@ != "variant_id"@);
    assert("tax"@.len() != "tax_id"@.len());
    assert("tax"@ != "tax_id"@);
    assert("tax"@.len() != "tax_transaction_id"@.len());
    assert("tax"@ != "tax_transaction_id"@);
    assert("tax"@.len() != "transaction_id"@.len());
    assert("tax"@ != "transaction_id"@);
    assert("tax"@.len() != "variant_id"@.len());
    assert("tax"@ != "variant_id"@);
    assert("tax_id"@.len() != "tax_transaction_id"@.len());
    assert("tax_id"@ != "tax_transaction_id"@);
    assert("tax_id"@.len() != "transaction_id"@.len());
    assert("tax_id"@ != "transaction_id"@);
    assert("tax_id"@.len() != "variant_id"@.len());
    assert("tax_id"@ != "variant_id"@);
    assert("tax_transaction_id"@.len() != "transaction_id"@.len());
    assert("tax_transaction_id"@ != "transaction_id"@);
    assert("tax_transaction_id"@.len() != "variant_id"@.len());
    assert("tax_transaction_id"@ != "variant_id"@);
    assert("transaction_id"@.len() != "variant_id"@.len());
    assert("transaction_id"@ != "variant_id"@);
    assert forall|a: int, b: int|
        0 <= a < b < t.columns@.len() implies #[trigger] t.columns@[a].name@
        != #[trigger] t.columns@[b].name@ by {
        assert(a == 0 || a == 1 || a == 2 || a == 3 || a == 4 || a == 5 || a == 6 || a == 7 || a == 8 || a == 9);
        assert(b == 0 || b == 1 || b == 2 || b == 3 || b == 4 || b == 5 || b == 6 || b == 7 || b == 8 || b == 9);
    }
    assert(t.columns@[0].primary_key);
    assert(t.has_primary_key());
    assert(t.columns@[5].name@ == "invoice_id"@);
    assert(t.has_column(t.foreign_keys@[0].from_column@));
    assert(s.tables@[11].columns@[0].name@ == "id"@);
    assert(s.tables@[11].has_column("id"@));
    assert(s.has_table_column(
        t.foreign_keys@[0].to_table@,
        t.foreign_keys@[0].to_column@,
    ));
    assert(t.columns@[6].name@ == "variant_id"@);
    assert(t.has_column(t.foreign_keys@[1].from_column@));
    assert(s.tables@[5].columns@[0].name@ == "id"@);
    assert(s.tables@[5].has_column("id"@));
    assert(s.has_table_column(
        t.foreign_keys@[1].to_table@,
        t.foreign_keys@[1].to_column@,
    ));
    assert(t.columns@[7].name@ == "transaction_id"@);
    assert(t.has_column(t.foreign_keys@[2].from_column@));
    assert(s.tables@[2].columns@[0].name@ == "id"@);
    assert(s.tables@[2].has_column("id"@));
    assert(s.has_table_column(
        t.foreign_keys@[2].to_table@,
        t.foreign_keys@[2].to_column@,
    ));
    assert(t.columns@[8].name@ == "tax_id"@);
    assert(t.has_column(t.foreign_keys@[3].from_column@));
    assert(s.tables@[8].columns@[0].name@ == "id"@);
    assert(s.tables@[8].has_column("id"@));
    assert(s.has_table_column(
        t.foreign_keys@[3].to_table@,
        t.foreign_keys@[3].to_column@,
    ));
    assert(t.columns@[9].name@ == "tax_transaction_id"@);
    assert(t.has_column(t.foreign_keys@[4].from_column@));
    assert(s.tables@[2].columns@[0].name@ == "id"@);
    assert(s.tables@[2].has_column("id"@));
    assert(s.has_table_column(
        t.foreign_keys@[4].to_table@,
        t.foreign_keys@[4].to_column@,
    ));
    assert forall|k: int|
        0 <= k < t.foreign_keys@.len() implies t.has_column(
        #[trigger] t.foreign_keys@[k].from_column@,
    ) && s.has_table_column(t.foreign_keys@[k].to_table@, t.foreign_keys@[k].to_column@) by {
        assert(k == 0 || k == 1 || k == 2 || k == 3 || k == 4);
    }
    assert forall|k: int|
        0 <= k < t.columns@.len() implies (match #[trigger] t.columns@[k].ty {
        ColumnType::Enumeration(e) => s.has_enum(e@),
        _ => true,
    }) by {
        assert(k == 0 || k == 1 || k == 2 || k == 3 || k == 4 || k == 5 || k == 6 || k == 7 || k == 8 || k == 9);
    }
}

proof fn lemma_purchase_orders_table_ok(s: Schema)
    requires
        is_erp_schema(s),
    ensures
        s.table_ok(s.tables@[13]),
{
    let t = s.tables@[13];
    reveal_strlit("date");
    reveal_strlit("id");
    reveal_strlit("reference");
    reveal_strlit("source_stock_id");
    reveal_strlit("status");
    reveal_strlit("supplier_id");
    reveal_strlit("target_stock_id");
    assert("date"@.len() != "id"@.len());
    assert("date"@ != "id"@);
    assert("date"@.len() != "reference"@.len());
    assert("date"@ != "reference"@);
    assert("date"@.len() != "source_stock_id"@.len());
    assert("date"@ != "source_stock_id"@);
    assert("date"@.len() != "status"@.len());
    assert("date"@ != "status"@);
    assert("date"@.len() != "supplier_id"@.len());
    assert("date"@ != "supplier_id"@);
    assert("date"@.len() != "target_stock_id"@.len());
    assert("date"@ != "target_stock_id"@);
    assert("id"@.len() != "reference"@.len());
    assert("id"@ != "reference"@);
    assert("id"@.len() != "source_stock_id"@.len());
    assert("id"@ != "source_stock_id"@);
    assert("id"@.len() != "status"@.len());
    assert("id"@ != "status"@);
    assert("id"@.len() != "supplier_id"@.len());
    assert("id"@ != "supplier_id"@);
    assert("id"@.len() != "target_stock_id"@.len());
    assert("id"@ != "target_stock_id"@);
    assert("reference"@.len() != "source_stock_id"@.len());
    assert("reference"@ != "source_stock_id"@);
    assert("reference"@.len() != "status"@.len());
    assert("reference"@ != "status"@);
    assert("reference"@.len() != "supplier_id"@.len());
    assert("reference"@ != "supplier_id"@);
    assert("reference"@.len() != "target_stock_id"@.len());
    assert("reference"@ != "target_stock_id"@);
    assert("source_stock_id"@.len() != "status"@.len());
    assert("source_stock_id"@ != "status"@);
    assert("source_stock_id"@.len() != "supplier_id"@.len());
    assert("source_stock_id"@ != "supplier_id"@);
    assert("source_stock_id"@[0] != "target_stock_id"@[0]);
    assert("source_stock_id"@ != "target_stock_id"@);
    assert("status"@.len() != "supplier_id"@.len());
    assert("status"@ != "supplier_id"@);
    assert("status"@.len() != "target_stock_id"@.len());
    assert("status"@ != "target_stock_id"@);
    assert("supplier_id"@.len() != "target_stock_id"@.len());
    assert("supplier_id"@ != "target_stock_id"@);
    assert forall|a: int, b: int|
        0 <= a < b < t.columns@.len() implies #[trigger] t.columns@[a].name@
        != #[trigger] t.columns@[b].name@ by {
        assert(a == 0 || a == 1 || a == 2 || a == 3 || a == 4 || a == 5 || a == 6);
        assert(b == 0 || b == 1 || b == 2 || b == 3 || b == 4 || b == 5 || b == 6);
    }
    assert(t.columns@[0].primary_key);
    assert(t.has_primary_key());
    assert(t.columns@[4].name@ == "supplier_id"@);
    assert(t.has_column(t.foreign_keys@[0].from_column@));
    assert(s.tables@[3].columns@[0].name@ == "id"@);
    assert(s.tables@[3].has_column("id"@));
    assert(s.has_table_column(
        t.foreign_keys@[0].to_table@,
        t.foreign_keys@[0].to_column@,
    ));
    assert(t.columns@[5].name@ == "source_stock_id"@);
    assert(t.has_column(t.foreign_keys@[1].from_column@));
    assert(s.tables@[6].columns@[0].name@ == "id"@);
    assert(s.tables@[6].has_column("id"@));
    assert(s.has_table_column(
        t.foreign_keys@[1].to_table@,
        t.foreign_keys@[1].to_column@,
    ));
    assert(t.columns@[6].name@ == "target_stock_id"@);
    assert(t.has_column(t.foreign_keys@[2].from_column@));
    assert(s.tables@[6].columns@[0].name@ == "id"@);
    assert(s.tables@[6].has_column("id"@));
    assert(s.has_table_column(
        t.foreign_keys@[2].to_table@,
        t.foreign_keys@[2].to_column@,
    ));
    assert forall|k: int|
        0 <= k < t.foreign_keys@.len() implies t.has_column(
        #[trigger] t.foreign_keys@[k].from_column@,
    ) && s.has_table_column(t.foreign_keys@[k].to_table@, t.foreign_keys@[k].to_column@) by {
        assert(k == 0 || k == 1 || k == 2);
    }
    assert(s.enums@[2].name@ == "purchase_order_status"@);
    assert(s.has_enum("purchase_order_status"@));
    assert forall|k: int|
        0 <= k < t.columns@.len() implies (match #[trigger] t.columns@[k].ty {
        ColumnType::Enumeration(e) => s.has_enum(e@),
        _ => true,
    }) by {
        assert(k == 0 || k == 1 || k == 2 || k == 3 || k == 4 || k == 5 || k == 6);
    }
}

proof fn lemma_purchase_order_lines_table_ok(s: Schema)
    requires
        is_erp_schema(s),
    ensures
        s.table_ok(s.tables@[14]),
{
    let t = s.tables@[14];
    reveal_strlit("description");
    reveal_strlit("id");
    reveal_strlit("move_id");
    reveal_strlit("order_id");
    reveal_strlit("price");
    reveal_strlit("quantity");
    reveal_strlit("tax");
    reveal_strlit("variant_id");
    assert("description"@.len() != "id"@.len());
    assert("description"@ != "id"@);
    assert("description"@.len() != "move_id"@.len());
    assert("description"@ != "move_id"@);
    assert("description"@.len() != "order_id"@.len());
    assert("description"@ != "order_id"@);
    assert("description"@.len() != "price"@.len());
    assert("description"@ != "price"@);
    assert("description"@.len() != "quantity"@.len());
    assert("description"@ != "quantity"@);
    assert("description"@.len() != "tax"@.len());
    assert("description"@ != "tax"@);
    assert("description"@.len() != "variant_id"@.len());
    assert("description"@ != "variant_id"@);
    assert("id"@.len() != "move_id"@.len());
    assert("id"@ != "move_id"@);
    assert("id"@.len() != "order_id"@.len());
    assert("id"@ != "order_id"@);
    assert("id"@.len() != "price"@.len());
    assert("id"@ != "price"@);
    assert("id"@.len() != "quantity"@.len());
    assert("id"@ != "quantity"@);
    assert("id"@.len() != "tax"@.len());
    assert("id"@ != "tax"@);
    assert("id"@.len() != "variant_id"@.len());
    assert("id"@ != "variant_id"@);
    assert("move_id"@.len() != "order_id"@.len());
    assert("move_id"@ != "order_id"@);
    assert("move_id"@.len() != "price"@.len());
    assert("move_id"@ != "price"@);
    assert("move_id"@.len() != "quantity"@.len());
    assert("move_id"@ != "quantity"@);
    assert("move_id"@.len() != "tax"@.len());
    assert("move_id"@ != "tax"@);
    assert("move_id"@.len() != "variant_id"@.len());
    assert("move_id"@ != "variant_id"@);
    assert("order_id"@.len() != "price"@.len());
    assert("order_id"@ != "price"@);
    assert("order_id"@[0] != "quantity"@[0]);
    assert("order_id"@ != "quantity"@);
    assert("order_id"@.len() != "tax"@.len());
    assert("order_id"@ != "tax"@);
    assert("order_id"@.len() != "variant_id"@.len());
    assert("order_id"@ != "variant_id"@);
    assert("price"@.len() != "quantity"@.len());
    assert("price"@ != "quantity"@);
    assert("price"@.len() != "tax"@.len());
    assert("price"@ != "tax"@);
    assert("price"@.len() != "variant_id"@.len());
    assert("price"@ != "variant_id"@);
    assert("quantity"@.len() != "tax"@.len());
    assert("quantity"@ != "tax"@);
    assert("quantity"@.len() != "variant_id"@.len());
    assert("quantity"@ != "variant_id"@);
    assert("tax"@.len() != "variant_id"@.len());
    assert("tax"@ != "variant_id"@);
    assert forall|a: int, b: int|
        0 <= a < b < t.columns@.len() implies #[trigger] t.columns@[a].name@
        != #[trigger] t.columns@[b].name@ by {
        assert(a == 0 || a == 1 || a == 2 || a == 3 || a == 4 || a == 5 || a == 6 || a == 7);
        assert(b == 0 || b == 1 || b == 2 || b == 3 || b == 4 || b == 5 || b == 6 || b == 7);
    }
    assert(t.columns@[0].primary_key);
    assert(t.has_primary_key());
    assert(t.columns@[5].name@ == "order_id"@);
    assert(t.has_column(t.foreign_keys@[0].from_column@));
    assert(s.tables@[13].columns@[0].name@ == "id"@);
    assert(s.tables@[13].has_column("id"@));
    assert(s.has_table_column(
        t.foreign_keys@[0].to_table@,
        t.foreign_keys@[0].to_column@,
    ));
    assert(t.columns@[6].name@ == "variant_id"@);
    assert(t.has_column(t.foreign_keys@[1].from_column@));
    assert(s.tables@[5].columns@[0].name@ == "id"@);
    assert(s.tables@[5].has_column("id"@));
    assert(s.has_table_column(
        t.foreign_keys@[1].to_table@,
        t.foreign_keys@[1].to_column@,
    ));
    assert(t.columns@[7].name@ == "move_id"@);
    assert(t.has_column(t.foreign_keys@[2].from_column@));
    assert(s.tables@[7].columns@[0].name@ == "id"@);
    assert(s.tables@[7].has_column("id"@));
    assert(s.has_table_column(
        t.foreign_keys@[2].to_table@,
        t.foreign_keys@[2].to_column@,
    ));
    assert forall|k: int|
        0 <= k < t.foreign_keys@.len() implies t.has_column(
        #[trigger] t.foreign_keys@[k].from_column@,
    ) && s.has_table_column(t.foreign_keys@[k].to_table@, t.foreign_keys@[k].to_column@) by {
        assert(k == 0 || k == 1 || k == 2);
    }
    assert forall|k: int|
        0 <= k < t.columns@.len() implies (match #[trigger] t.columns@[k].ty {
        ColumnType::Enumeration(e) => s.has_enum(e@),
        _ => true,
    }) by {
        assert(k == 0 || k == 1 || k == 2 || k == 3 || k == 4 || k == 5 || k == 6 || k == 7);
    }
}

proof fn lemma_purchase_invoices_table_ok(s: Schema)
    requires
        is_erp_schema(s),
    ensures
        s.table_ok(s.tables@[15]),
{
    let t = s.tables@[15];
    reveal_strlit("date");
    reveal_strlit("id");
    reveal_strlit("order_id");
    reveal_strlit("reference");
    reveal_strlit("status");
    reveal_strlit("supplier_id");
    assert("date"@.len() != "id"@.len());
    assert("date"@ != "id"@);
    assert("date"@.len() != "order_id"@.len());
    assert("date"@ != "order_id"@);
    assert("date"@.len() != "reference"@.len());
    assert("date"@ != "reference"@);
    assert("date"@.len() != "status"@.len());
    assert("date"@ != "status"@);
    assert("date"@.len() != "supplier_id"@.len());
    assert("date"@ != "supplier_id"@);
    assert("id"@.len() != "order_id"@.len());
    assert("id"@ != "order_id"@);
    assert("id"@.len() != "reference"@.len());
    assert("id"@ != "reference"@);
    assert("id"@.len() != "status"@.len());
    assert("id"@ != "status"@);
    assert("id"@.len() != "supplier_id"@.len());
    assert("id"@ != "supplier_id"@);
    assert("order_id"@.len() != "reference"@.len());
    assert("order_id"@ != "reference"@);
    assert("order_id"@.len() != "status"@.len());
    assert("order_id"@ != "status"@);
    assert("order_id"@.len() != "supplier_id"@.len());
    assert("order_id"@ != "supplier_id"@);
    assert("reference"@.len() != "status"@.len());
    assert("reference"@ != "status"@);
    assert("reference"@.len() != "supplier_id"@.len());
    assert("reference"@ != "supplier_id"@);
    assert("status"@.len() != "supplier_id"@.len());
    assert("status"@ != "supplier_id"@);
    assert forall|a: int, b: int|
        0 <= a < b < t.columns@.len() implies #[trigger] t.columns@[a].name@
        != #[trigger] t.columns@[b].name@ by {
        assert(a == 0 || a == 1 || a == 2 || a == 3 || a == 4 || a == 5);
        assert(b == 0 || b == 1 || b == 2 || b == 3 || b == 4 || b == 5);
    }
    assert(t.columns@[0].primary_key);
    assert(t.has_primary_key());
    assert(t.columns@[4].name@ == "order_id"@);
    assert(t.has_column(t.foreign_keys@[0].from_column@));
    assert(s.tables@[13].columns@[0].name@ == "id"@);
    assert(s.tables@[13].has_column("id"@));
    assert(s.has_table_column(
        t.foreign_keys@[0].to_table@,
        t.foreign_keys@[0].to_column@,
    ));
    assert(t.columns@[5].name@ == "supplier_id"@);
    assert(t.has_column(t.foreign_keys@[1].from_column@));
    assert(s.tables@[3].columns@[0].name@ == "id"@);
    assert(s.tables@[3].has_column("id"@));
    assert(s.has_table_column(
        t.foreign_keys@[1].to_table@,
        t.foreign_keys@[1].to_column@,
    ));
    assert forall|k: int|
        0 <= k < t.foreign_keys@.len() implies t.has_column(
        #[trigger] t.foreign_keys@[k].from_column@,
    ) && s.has_table_column(t.foreign_keys@[k].to_table@, t.foreign_keys@[k].to_column@) by {
        assert(k == 0 || k == 1);
    }
    assert(s.enums@[3].name@ == "purchase_invoice_status"@);
    assert(s.has_enum("purchase_invoice_status"@));
    assert forall|k: int|
        0 <= k < t.columns@.len() implies (match #[trigger] t.columns@[k].ty {
        ColumnType::Enumeration(e) => s.has_enum(e@),
        _ => true,
    }) by {
        assert(k == 0 || k == 1 || k == 2 || k == 3 || k == 4 || k == 5);
    }
}

proof fn lemma_purchase_invoice_lines_table_ok(s: Schema)
    requires
        is_erp_schema(s),
    ensures
        s.table_ok(s.tables@[16]),
{
    let t = s.tables@[16];
    reveal_strlit("description");
    reveal_strlit("id");
    reveal_strlit("invoice_id");
    reveal_strlit("price");
    reveal_strlit("quantity");
    reveal_strlit("tax");
    reveal_strlit("tax_id");
    reveal_strlit("tax_transaction_id");
    reveal_strlit("transaction_id");
    reveal_strlit("variant_id");
    assert("description"@.len() != "id"@.len());
    assert("description"@ != "id"@);
    assert("description"@.len() != "invoice_id"@.len());
    assert("description"@ != "invoice_id"@);
    assert("description"@.len() != "price"@.len());
    assert("description"@ != "price"@);
    assert("description"@.len() != "quantity"@.len());
    assert("description"@ != "quantity"@);
    assert("description"@.len() != "tax"@.len());
    assert("description"@ != "tax"@);
    assert("description"@.len() != "tax_id"@.len());
    assert("description"@ != "tax_id"@);
    assert("description"@.len() != "tax_transaction_id"@.len());
    assert("description"@ != "tax_transaction_id"@);
    assert("description"@.len() != "transaction_id"@.len());
    assert("description"@ != "transaction_id"@);
    assert("description"@.len() != "variant_id"@.len());
    assert("description"@ != "variant_id"@);
    assert("id"@.len() != "invoice_id"@.len());
    assert("id"@ != "invoice_id"@);
    assert("id"@.len() != "price"@.len());
    assert("id"@ != "price"@);
    assert("id"@.len() != "quantity"@.len());
    assert("id"@ != "quantity"@);
    assert("id"@.len() != "tax"@.len());
    assert("id"@ != "tax"@);
    assert("id"@.len() != "tax_id"@.len());
    assert("id"@ != "tax_id"@);
    assert("id"@.len() != "tax_transaction_id"@.len());
    assert("id"@ != "tax_transaction_id"@);
    assert("id"@.len() != "transaction_id"@.len());
    assert("id"@ != "transaction_id"@);
    assert("id"@.len() != "variant_id"@.len());
    assert("id"@ != "variant_id"@);
    assert("invoice_id"@.len() != "price"@.len());
    assert("invoice_id"@ != "price"@);
    assert("invoice_id"@.len() != "quantity"@.len());
    assert("invoice_id"@ != "quantity"@);
    assert("invoice_id"@.len() != "tax"@.len());
    assert("invoice_id"@ != "tax"@);
    assert("invoice_id"@.len() != "tax_id"@.len());
    assert("invoice_id"@ != "tax_id"@);
    assert("invoice_id"@.len() != "tax_transaction_id"@.len());
    assert("invoice_id"@ != "tax_transaction_id"@);
    assert("invoice_id"@.len() != "transaction_id"@.len());
    assert("invoice_id"@ != "transaction_id"@);
    assert("invoice_id"@[0] != "variant_id"@[0]);
    assert("invoice_id"@ != "variant_id"@);
    assert("price"@.len() != "quantity"@.len());
    assert("price"@ != "quantity"@);
    assert("price"@.len() != "tax"@.len());
    assert("price"@ != "tax"@);
    assert("price"@.len() != "tax_id"@.len());
    assert("price"@ != "tax_id"@);
    assert("price"@.len() != "tax_transaction_id"@.len());
    assert("price"@ != "tax_transaction_id"@);
    assert("price"@.len() != "transaction_id"@.len());
    assert("price"@ != "transaction_id"@);
    assert("price"@.len() != "variant_id"@.len());
    assert("price"@ != "variant_id"@);
    assert("quantity"@.len() != "tax"@.len());
    assert("quantity"@ != "tax"@);
    assert("quantity"@.len() != "tax_id"@.len());
    assert("quantity"@ != "tax_id"@);
    assert("quantity"@.len() != "tax_transaction_id"@.len());
    assert("quantity"@ != "tax_transaction_id"@);
    assert("quantity"@.len() != "transaction_id"@.len());
    assert("quantity"@ != "transaction_id"@);
    assert("quantity"@.len() != "variant_id"@.len());
    assert("quantity"@ != "variant_id"@);
    assert("tax"@.len() != "tax_id"@.len());
    assert("tax"@ != "tax_id"@);
    assert("tax"@.len() != "tax_transaction_id"@.len());
    assert("tax"@ != "tax_transaction_id"@);
    assert("tax"@.len() != "transaction_id"@.len());
    assert("tax"@ != "transaction_id"@);
    assert("tax"@.len() != "variant_id"@.len());
    assert("tax"@ != "variant_id"@);
    assert("tax_id"@.len() != "tax_transaction_id"@.len());
    assert("tax_id"@ != "tax_transaction_id"@);
    assert("tax_id"@.len() != "transaction_id"@.len());
    assert("tax_id"@ != "transaction_id"@);
    assert("tax_id"@.len() != "variant_id"@.len());
    assert("tax_id"@ != "variant_id"@);
    assert("tax_transaction_id"@.len() != "transaction_id"@.len());
    assert("tax_transaction_id"@ != "transaction_id"@);
    assert("tax_transaction_id"@.len() != "variant_id"@.len());
    assert("tax_transaction_id"@ != "variant_id"@);
    assert("transaction_id"@.len() != "variant_id"@.len());
    assert("transaction_id"@ != "variant_id"@);
    assert forall|a: int, b: int|
        0 <= a < b < t.columns@.len() implies #[trigger] t.columns@[a].name@
        != #[trigger] t.columns@[b].name@ by {
        assert(a == 0 || a == 1 || a == 2 || a == 3 || a == 4 || a == 5 || a == 6 || a == 7 || a == 8 || a == 9);
        assert(b == 0 || b == 1 || b == 2 || b == 3 || b == 4 || b == 5 || b == 6 || b == 7 || b == 8 || b == 9);
    }
    assert(t.columns@[0].primary_key);
    assert(t.has_primary_key());
    assert(t.columns@[5].name@ == "invoice_id"@);
    assert(t.has_column(t.foreign_keys@[0].from_column@));
    assert(s.tables@[15].columns@[0].name@ == "id"@);
    assert(s.tables@[15].has_column("id"@));
    assert(s.has_table_column(
        t.foreign_keys@[0].to_table@,
        t.foreign_keys@[0].to_column@,
    ));
    assert(t.columns@[6].name@ == "variant_id"@);
    assert(t.has_column(t.foreign_keys@[1].from_column@));
    assert(s.tables@[5].columns@[0].name@ == "id"@);
    assert(s.tables@[5].has_column("id"@));
    assert(s.has_table_column(
        t.foreign_keys@[1].to_table@,
        t.foreign_keys@[1].to_column@,
    ));
    assert(t.columns@[7].name@ == "transaction_id"@);
    assert(t.has_column(t.foreign_keys@[2].from_column@));
    assert(s.tables@[2].columns@[0].name@ == "id"@);
    assert(s.tables@[2].has_column("id"@));
    assert(s.has_table_column(
        t.foreign_keys@[2].to_table@,
        t.foreign_keys@[2].to_column@,
    ));
    assert(t.columns@[8].name@ == "tax_id"@);
    assert(t.has_column(t.foreign_keys@[3].from_column@));
    assert(s.tables@[8].columns@[0].name@ == "id"@);
    assert(s.tables@[8].has_column("id"@));
    assert(s.has_table_column(
        t.foreign_keys@[3].to_table@,
        t.foreign_keys@[3].to_column@,
    ));
    assert(t.columns@[9].name@ == "tax_transaction_id"@);
    assert(t.has_column(t.foreign_keys@[4].from_column@));
    assert(s.tables@[2].columns@[0].name@ == "id"@);
    assert(s.tables@[2].has_column("id"@));
    assert(s.has_table_column(
        t.foreign_keys@[4].to_table@,
        t.foreign_keys@[4].to_column@,
    ));
    assert forall|k: int|
        0 <= k < t.foreign_keys@.len() implies t.has_column(
        #[trigger] t.foreign_keys@[k].from_column@,
    ) && s.has_table_column(t.foreign_keys@[k].to_table@, t.foreign_keys@[k].to_column@) by {
        assert(k == 0 || k == 1 || k == 2 || k == 3 || k == 4);
    }
    assert forall|k: int|
        0 <= k < t.columns@.len() implies (match #[trigger] t.columns@[k].ty {
        ColumnType::Enumeration(e) => s.has_enum(e@),
        _ => true,
    }) by {
        assert(k == 0 || k == 1 || k == 2 || k == 3 || k == 4 || k == 5 || k == 6 || k == 7 || k == 8 || k == 9);
    }
}

/// The pinned ERP schema is well formed: table and column names are
/// unique, every table has its primary key, every foreign key points at an
/// existing table and column, and every enumeration column at a declared
/// type.
pub proof fn erp_schema_wf(s: Schema)
    requires
        is_erp_schema(s),
    ensures
        s.wf(),
{
    lemma_erp_tables_distinct(s);
    lemma_users_table_ok(s);
    lemma_ledger_accounts_table_ok(s);
    lemma_ledger_transactions_table_ok(s);
    lemma_contacts_table_ok(s);
    lemma_products_table_ok(s);
    lemma_variants_table_ok(s);
    lemma_stocks_table_ok(s);
    lemma_stock_moves_table_ok(s);
    lemma_taxes_table_ok(s);
    lemma_sale_orders_table_ok(s);
    lemma_sale_order_lines_table_ok(s);
    lemma_sale_invoices_table_ok(s);
    lemma_sale_invoice_lines_table_ok(s);
    lemma_purchase_orders_table_ok(s);
    lemma_purchase_order_lines_table_ok(s);
    lemma_purchase_invoices_table_ok(s);
    lemma_purchase_invoice_lines_table_ok(s);
    assert forall|i: int| 0 <= i < s.tables@.len() implies s.table_ok(
        #[trigger] s.tables@[i],
    ) by {
        assert(i == 0 || i == 1 || i == 2 || i == 3 || i == 4 || i == 5 || i == 6 || i == 7 || i == 8 || i == 9 || i == 10 || i == 11 || i == 12 || i == 13 || i == 14 || i == 15 || i == 16);
    }
}

/// The ERP schema passes the verified checker; provably it always does.
pub fn erp_schema_well_formed() -> (r: bool)
    ensures
        r,
{
    let s = erp_schema();
    proof {
        erp_schema_wf(s);
    }
    schema_well_formed(&s)
}

} // verus!
