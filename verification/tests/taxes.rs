use erp_backend::handlers::{ledger_accounts, taxes};
use erp_backend::models::ledger_accounts::CreateLedgerAccountInput;
use erp_backend::models::taxes::{CreateTaxData, ListTaxesInput};
use erp_backend::response::ApiResponse;
use erp_backend::state::{AppState, MockAppState};

fn tax_data(name: &str, name_short: &str, rate: f64, account_id: i32) -> CreateTaxData {
    CreateTaxData {
        name: name.to_string(),
        name_short: name_short.to_string(),
        rate_bits: rate.to_bits(),
        account_id,
    }
}

fn seed_accounts(state: &mut AppState, n: i32) {
    let mut i = 0;
    while i < n {
        let input = CreateLedgerAccountInput {
            account_type: "income".to_string(),
            name: "Example Inc.".to_string(),
        };
        assert_eq!(ledger_accounts::create(state, &input).status(), 200u16);
        i += 1;
    }
}

#[test]
fn taxes_create_test_success() {
    let mut state = AppState::from(MockAppState::new());
    seed_accounts(&mut state, 5);
    let res = taxes::create(&mut state, &tax_data("Sales tax", "19%", 0.19, 5));
    assert_eq!(res.status(), 200u16);
    match res {
        ApiResponse::Success(payload) => {
            assert_eq!(payload.id, 1);
            assert_eq!(payload.name, "Sales tax".to_string());
            assert_eq!(payload.name_short, "19%".to_string());
            assert_eq!(f64::from_bits(payload.rate_bits), 0.19);
            assert_eq!(payload.account_id, 5);
        }
        _ => panic!("expected a created tax"),
    }
}

#[test]
fn taxes_create_test_customer_invalid_name() {
    let mut state = AppState::from(MockAppState::new());
    let res = taxes::create(&mut state, &tax_data("", "19%", 0.19, 5));
    assert_eq!(res.status(), 400u16);
}

#[test]
fn test_supplier_invalid_short_name() {
    let mut state = AppState::from(MockAppState::new());
    let res = taxes::create(&mut state, &tax_data("Sales tax", "", 0.19, 5));
    assert_eq!(res.status(), 400u16);
}

#[test]
fn taxes_create_test_supplier_invalid_account() {
    let mut state = AppState::from(MockAppState::new());
    let res = taxes::create(&mut state, &tax_data("Sales tax", "19%", 0.19, 5));
    assert_eq!(res.status(), 404u16);
    match res {
        ApiResponse::Error(e) => {
            assert_eq!(e.code(), "ACCOUNT_NOT_FOUND");
            assert_eq!(e.message(), "Ledger account could not be found");
        }
        _ => panic!("expected the account-not-found error"),
    }
}

#[test]
fn taxes_get_test_success() {
    let mut state = AppState::from(MockAppState::new());
    seed_accounts(&mut state, 1);
    let mut i = 0;
    while i < 5 {
        let res = taxes::create(&mut state, &tax_data("Sales tax", "19%", 0.19, 1));
        assert_eq!(res.status(), 200u16);
        i += 1;
    }
    let res = taxes::get(&state, 5);
    assert_eq!(res.status(), 200u16);
    match res {
        ApiResponse::Success(payload) => {
            assert_eq!(payload.id, 5);
            assert_eq!(payload.name, "Sales tax".to_string());
            assert_eq!(payload.account_id, 1);
        }
        _ => panic!("expected a tax"),
    }
}

#[test]
fn taxes_get_test_not_found() {
    let state = AppState::from(MockAppState::new());
    let res = taxes::get(&state, 5);
    assert_eq!(res.status(), 404u16);
}

#[test]
fn taxes_list_and_delete() {
    let mut state = AppState::from(MockAppState::new());
    seed_accounts(&mut state, 1);
    assert_eq!(taxes::create(&mut state, &tax_data("Sales tax", "19%", 0.19, 1)).status(), 200u16);
    assert_eq!(taxes::create(&mut state, &tax_data("Reduced", "7%", 0.07, 1)).status(), 200u16);
    let input = ListTaxesInput { limit: None, offset: None };
    match taxes::list(&state, &input) {
        ApiResponse::Success(page) => {
            assert_eq!(page.limit, 100);
            assert_eq!(page.offset, 0);
            assert_eq!(page.total, 2);
            assert_eq!(page.data.len(), 2);
            assert_eq!(page.data[1].name_short, "7%".to_string());
        }
        _ => panic!("expected a page"),
    }
    assert_eq!(taxes::delete(&mut state, 1).status(), 204u16);
    assert_eq!(taxes::delete(&mut state, 1).status(), 404u16);
    assert_eq!(taxes::get(&state, 1).status(), 404u16);
}

#[test]
fn taxes_rate_bits_round_trip() {
    let mut state = AppState::from(MockAppState::new());
    seed_accounts(&mut state, 1);
    for rate in [0.0, 0.07, 0.19, 1.0, 123.456] {
        let res = taxes::create(&mut state, &tax_data("Sales tax", "19%", rate, 1));
        match res {
            ApiResponse::Success(payload) => {
                assert_eq!(f64::from_bits(payload.rate_bits), rate);
            }
            _ => panic!("expected a created tax"),
        }
    }
}
