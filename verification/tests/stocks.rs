use erp_backend::handlers::{contacts, ledger_accounts, stocks};
use erp_backend::models::contacts::CreateContactInput;
use erp_backend::models::ledger_accounts::CreateLedgerAccountInput;
use erp_backend::models::stocks::CreateStockInput;
use erp_backend::response::ApiResponse;
use erp_backend::state::{AppState, MockAppState};

fn stock_input(name: &str) -> CreateStockInput {
    CreateStockInput { name: name.to_string() }
}

fn seed_contact(state: &mut AppState) -> i32 {
    let account = CreateLedgerAccountInput {
        account_type: "income".to_string(),
        name: "Example Inc.".to_string(),
    };
    assert_eq!(ledger_accounts::create(state, &account).status(), 200u16);
    let contact = CreateContactInput {
        name: "Example Inc.".to_string(),
        account_id: 1,
        street1: "street1".to_string(),
        street2: "street2".to_string(),
        postal_code: "postalCode".to_string(),
        city: "city".to_string(),
        country: "country".to_string(),
    };
    match contacts::create_customer(state, &contact) {
        ApiResponse::Success(m) => m.id,
        _ => panic!("expected a created contact"),
    }
}

#[test]
fn test_own_success() {
    let mut state = AppState::from(MockAppState::new());
    let res = stocks::create_own(&mut state, &stock_input("Warenhaus"));
    assert_eq!(res.status(), 200u16);
    match res {
        ApiResponse::Success(payload) => {
            assert_eq!(payload.id, 1);
            assert_eq!(payload.name, "Warenhaus".to_string());
            assert_eq!(payload.is_own, true);
            assert_eq!(payload.owner_id, None);
        }
        _ => panic!("expected a created stock"),
    }
}

#[test]
fn test_other_success() {
    let mut state = AppState::from(MockAppState::new());
    let contact_id = seed_contact(&mut state);
    let res = stocks::create_contact(&mut state, contact_id, &stock_input("Warenhaus"));
    assert_eq!(res.status(), 200u16);
    match res {
        ApiResponse::Success(payload) => {
            assert_eq!(payload.name, "Warenhaus".to_string());
            assert_eq!(payload.is_own, false);
            assert_eq!(payload.owner_id, Some(contact_id));
        }
        _ => panic!("expected a created stock"),
    }
}

#[test]
fn stocks_create_test_invalid_name() {
    let mut state = AppState::from(MockAppState::new());
    let res = stocks::create_own(&mut state, &stock_input(""));
    assert_eq!(res.status(), 400u16);
}

#[test]
fn test_invalid_owner() {
    let mut state = AppState::from(MockAppState::new());
    let res = stocks::create_contact(&mut state, 5, &stock_input("Warenhaus"));
    assert_eq!(res.status(), 404u16);
}

#[test]
fn stocks_get_success_and_not_found() {
    let mut state = AppState::from(MockAppState::new());
    assert_eq!(stocks::create_own(&mut state, &stock_input("Warenhaus")).status(), 200u16);
    match stocks::get(&state, 1) {
        ApiResponse::Success(m) => {
            assert_eq!(m.name, "Warenhaus".to_string());
            assert_eq!(m.is_own, true);
        }
        _ => panic!("expected a stock"),
    }
    assert_eq!(stocks::get(&state, 2).status(), 404u16);
}

#[test]
fn stocks_delete_success_then_not_found() {
    let mut state = AppState::from(MockAppState::new());
    assert_eq!(stocks::create_own(&mut state, &stock_input("Warenhaus")).status(), 200u16);
    assert_eq!(stocks::delete(&mut state, 1).status(), 204u16);
    assert_eq!(stocks::delete(&mut state, 1).status(), 404u16);
}

#[test]
fn stocks_listings_are_split_by_ownership() {
    let mut state = AppState::from(MockAppState::new());
    let contact_id = seed_contact(&mut state);
    assert_eq!(stocks::create_own(&mut state, &stock_input("Main")).status(), 200u16);
    assert_eq!(
        stocks::create_contact(&mut state, contact_id, &stock_input("Consignment")).status(),
        200u16
    );
    assert_eq!(stocks::create_own(&mut state, &stock_input("Backup")).status(), 200u16);
    match stocks::list_own(&state, None, None) {
        ApiResponse::Success(page) => {
            assert_eq!(page.total, 2);
            assert_eq!(page.data.len(), 2);
            assert_eq!(page.data[0].name, "Main".to_string());
            assert_eq!(page.data[1].name, "Backup".to_string());
        }
        _ => panic!("expected a page"),
    }
    match stocks::list_contract(&state, contact_id, None, None) {
        ApiResponse::Success(page) => {
            assert_eq!(page.total, 1);
            assert_eq!(page.data.len(), 1);
            assert_eq!(page.data[0].name, "Consignment".to_string());
            assert_eq!(page.data[0].owner_id, Some(contact_id));
        }
        _ => panic!("expected a page"),
    }
}

#[test]
fn stocks_list_for_missing_contact_is_not_found() {
    let state = AppState::from(MockAppState::new());
    assert_eq!(stocks::list_contract(&state, 9, None, None).status(), 404u16);
}
