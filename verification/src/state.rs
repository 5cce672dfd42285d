//! The application state: one in-memory table per entity.

use vstd::prelude::*;
use crate::store::contacts::ContactStore;
use crate::store::ledger_accounts::LedgerAccountStore;
use crate::store::ledger_transactions::LedgerTransactionStore;
use crate::store::products::ProductStore;
use crate::store::taxes::TaxStore;
use crate::store::stocks::StockStore;
use crate::store::users::UserStore;
use crate::store::variants::VariantStore;

verus! {

pub struct AppState {
    pub contacts: ContactStore,
    pub ledger_accounts: LedgerAccountStore,
    pub ledger_transactions: LedgerTransactionStore,
    pub products: ProductStore,
    pub stocks: StockStore,
    pub taxes: TaxStore,
    pub users: UserStore,
    pub variants: VariantStore,
}

impl AppState {
    /// Every table is well formed.
    pub open spec fn wf(self) -> bool {
        &&& self.contacts.wf()
        &&& self.ledger_accounts.wf()
        &&& self.ledger_transactions.wf()
        &&& self.products.wf()
        &&& self.stocks.wf()
        &&& self.taxes.wf()
        &&& self.users.wf()
        &&& self.variants.wf()
    }

    /// A fresh state with every table empty.
    pub fn new() -> (s: Self)
        ensures
            s.wf(),
            s.contacts.rows().len() == 0,
            s.ledger_accounts.rows().len() == 0,
            s.ledger_transactions.rows().len() == 0,
            s.products.rows().len() == 0,
            s.stocks.rows().len() == 0,
            s.taxes.rows().len() == 0,
            s.users.rows().len() == 0,
            s.variants.rows().len() == 0,
            s.contacts.next_id() == 1,
            s.ledger_accounts.next_id() == 1,
            s.ledger_transactions.next_id() == 1,
            s.products.next_id() == 1,
            s.stocks.next_id() == 1,
            s.taxes.next_id() == 1,
            s.users.next_id() == 1,
            s.variants.next_id() == 1,
    {
        AppState {
            contacts: ContactStore::new(),
            ledger_accounts: LedgerAccountStore::new(),
            ledger_transactions: LedgerTransactionStore::new(),
            products: ProductStore::new(),
            stocks: StockStore::new(),
            taxes: TaxStore::new(),
            users: UserStore::new(),
            variants: VariantStore::new(),
        }
    }
}

/// The two states agree on every table but possibly the contacts
/// table.
pub open spec fn unchanged_except_contacts(a: AppState, b: AppState) -> bool {
    &&& a.ledger_accounts == b.ledger_accounts
    &&& a.ledger_transactions == b.ledger_transactions
    &&& a.products == b.products
    &&& a.stocks == b.stocks
    &&& a.taxes == b.taxes
    &&& a.users == b.users
    &&& a.variants == b.variants
}

/// The two states agree on every table but possibly the ledger accounts
/// table.
pub open spec fn unchanged_except_ledger_accounts(a: AppState, b: AppState) -> bool {
    &&& a.contacts == b.contacts
    &&& a.ledger_transactions == b.ledger_transactions
    &&& a.products == b.products
    &&& a.stocks == b.stocks
    &&& a.taxes == b.taxes
    &&& a.users == b.users
    &&& a.variants == b.variants
}

/// The two states agree on every table but possibly the ledger transactions
/// table.
pub open spec fn unchanged_except_ledger_transactions(a: AppState, b: AppState) -> bool {
    &&& a.contacts == b.contacts
    &&& a.ledger_accounts == b.ledger_accounts
    &&& a.products == b.products
    &&& a.stocks == b.stocks
    &&& a.taxes == b.taxes
    &&& a.users == b.users
    &&& a.variants == b.variants
}

/// The two states agree on every table but possibly the products
/// table.
pub open spec fn unchanged_except_products(a: AppState, b: AppState) -> bool {
    &&& a.contacts == b.contacts
    &&& a.ledger_accounts == b.ledger_accounts
    &&& a.ledger_transactions == b.ledger_transactions
    &&& a.stocks == b.stocks
    &&& a.taxes == b.taxes
    &&& a.users == b.users
    &&& a.variants == b.variants
}

/// The two states agree on every table but possibly the stocks
/// table.
pub open spec fn unchanged_except_stocks(a: AppState, b: AppState) -> bool {
    &&& a.contacts == b.contacts
    &&& a.ledger_accounts == b.ledger_accounts
    &&& a.ledger_transactions == b.ledger_transactions
    &&& a.products == b.products
    &&& a.taxes == b.taxes
    &&& a.users == b.users
    &&& a.variants == b.variants
}

/// The two states agree on every table but possibly the taxes
/// table.
pub open spec fn unchanged_except_taxes(a: AppState, b: AppState) -> bool {
    &&& a.contacts == b.contacts
    &&& a.ledger_accounts == b.ledger_accounts
    &&& a.ledger_transactions == b.ledger_transactions
    &&& a.products == b.products
    &&& a.stocks == b.stocks
    &&& a.users == b.users
    &&& a.variants == b.variants
}

/// The two states agree on every table but possibly the users
/// table.
pub open spec fn unchanged_except_users(a: AppState, b: AppState) -> bool {
    &&& a.contacts == b.contacts
    &&& a.ledger_accounts == b.ledger_accounts
    &&& a.ledger_transactions == b.ledger_transactions
    &&& a.products == b.products
    &&& a.stocks == b.stocks
    &&& a.taxes == b.taxes
    &&& a.variants == b.variants
}

/// The two states agree on every table but possibly the variants
/// table.
pub open spec fn unchanged_except_variants(a: AppState, b: AppState) -> bool {
    &&& a.contacts == b.contacts
    &&& a.ledger_accounts == b.ledger_accounts
    &&& a.ledger_transactions == b.ledger_transactions
    &&& a.products == b.products
    &&& a.stocks == b.stocks
    &&& a.taxes == b.taxes
    &&& a.users == b.users
}

/// A state assembled table by table, as the tests do; convertible into
/// [`AppState`].
pub struct MockAppState {
    pub contacts: ContactStore,
    pub ledger_accounts: LedgerAccountStore,
    pub ledger_transactions: LedgerTransactionStore,
    pub products: ProductStore,
    pub stocks: StockStore,
    pub taxes: TaxStore,
    pub users: UserStore,
    pub variants: VariantStore,
}

impl MockAppState {
    pub open spec fn as_app(self) -> AppState {
        AppState {
            contacts: self.contacts,
            ledger_accounts: self.ledger_accounts,
            ledger_transactions: self.ledger_transactions,
            products: self.products,
            stocks: self.stocks,
            taxes: self.taxes,
            users: self.users,
            variants: self.variants,
        }
    }

    /// A fresh state with every table empty.
    pub fn new() -> (s: Self)
        ensures
            s.as_app().wf(),
            s.contacts.rows().len() == 0,
            s.ledger_accounts.rows().len() == 0,
            s.ledger_transactions.rows().len() == 0,
            s.products.rows().len() == 0,
            s.stocks.rows().len() == 0,
            s.taxes.rows().len() == 0,
            s.users.rows().len() == 0,
            s.variants.rows().len() == 0,
            s.contacts.next_id() == 1,
            s.ledger_accounts.next_id() == 1,
            s.ledger_transactions.next_id() == 1,
            s.products.next_id() == 1,
            s.stocks.next_id() == 1,
            s.taxes.next_id() == 1,
            s.users.next_id() == 1,
            s.variants.next_id() == 1,
    {
        MockAppState {
            contacts: ContactStore::new(),
            ledger_accounts: LedgerAccountStore::new(),
            ledger_transactions: LedgerTransactionStore::new(),
            products: ProductStore::new(),
            stocks: StockStore::new(),
            taxes: TaxStore::new(),
            users: UserStore::new(),
            variants: VariantStore::new(),
        }
    }
}

impl From<MockAppState> for AppState {
    fn from(value: MockAppState) -> (s: AppState) {
        AppState {
            contacts: value.contacts,
            ledger_accounts: value.ledger_accounts,
            ledger_transactions: value.ledger_transactions,
            products: value.products,
            stocks: value.stocks,
            taxes: value.taxes,
            users: value.users,
            variants: value.variants,
        }
    }
}

impl vstd::std_specs::convert::FromSpecImpl<MockAppState> for AppState {
    open spec fn obeys_from_spec() -> bool {
        true
    }

    open spec fn from_spec(v: MockAppState) -> AppState {
        v.as_app()
    }
}

} // verus!
