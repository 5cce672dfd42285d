use erp_backend::handlers::{contacts, ledger_accounts};
use erp_backend::models::contacts::{CreateContactInput, ListContactsInput};
use erp_backend::models::ledger_accounts::CreateLedgerAccountInput;
use erp_backend::response::ApiResponse;
use erp_backend::state::{AppState, MockAppState};

fn seed_accounts(state: &mut AppState, n: i32) {
    let mut i = 0;
    while i < n {
        let input = CreateLedgerAccountInput {
            account_type: "income".to_string(),
            name: "Example Inc.".to_string(),
        };
        let r = ledger_accounts::create(state, &input);
        assert_eq!(r.status(), 200u16);
        i += 1;
    }
}

fn contact_input(name: &str, account_id: i32) -> CreateContactInput {
    CreateContactInput {
        name: name.to_string(),
        account_id,
        street1: "street1".to_string(),
        street2: "street2".to_string(),
        postal_code: "postalCode".to_string(),
        city: "city".to_string(),
        country: "country".to_string(),
    }
}

#[test]
fn contacts_create_test_customer_success() {
    let mut state = AppState::from(MockAppState::new());
    seed_accounts(&mut state, 5);

    let res = contacts::create_customer(&mut state, &contact_input("Example Inc.", 5));
    assert_eq!(res.status(), 200u16);
    match res {
        ApiResponse::Success(payload) => {
            assert_eq!(payload.id, 1);
            assert_eq!(payload.name, "Example Inc.".to_string());
            assert_eq!(payload.is_customer, true);
            assert_eq!(payload.is_supplier, false);
            assert_eq!(payload.customer_account_id, Some(5));
            assert_eq!(payload.supplier_account_id, None);
            assert_eq!(payload.street1, "street1".to_string());
            assert_eq!(payload.street2, "street2".to_string());
            assert_eq!(payload.postal_code, "postalCode".to_string());
            assert_eq!(payload.city, "city".to_string());
            assert_eq!(payload.country, "country".to_string());
        }
        _ => panic!("expected a created customer"),
    }
}

#[test]
fn contacts_create_test_supplier_success() {
    let mut state = AppState::from(MockAppState::new());
    seed_accounts(&mut state, 5);

    let res = contacts::create_supplier(&mut state, &contact_input("Example Inc.", 5));
    assert_eq!(res.status(), 200u16);
    match res {
        ApiResponse::Success(payload) => {
            assert_eq!(payload.id, 1);
            assert_eq!(payload.name, "Example Inc.".to_string());
            assert_eq!(payload.is_customer, false);
            assert_eq!(payload.is_supplier, true);
            assert_eq!(payload.customer_account_id, None);
            assert_eq!(payload.supplier_account_id, Some(5));
            assert_eq!(payload.street1, "street1".to_string());
            assert_eq!(payload.street2, "street2".to_string());
            assert_eq!(payload.postal_code, "postalCode".to_string());
            assert_eq!(payload.city, "city".to_string());
            assert_eq!(payload.country, "country".to_string());
        }
        _ => panic!("expected a created supplier"),
    }
}

#[test]
fn contacts_create_test_customer_invalid_name() {
    let mut state = AppState::from(MockAppState::new());
    let mut input = contact_input("", 5);
    input.street1 = "".to_string();
    input.street2 = "".to_string();
    input.postal_code = "".to_string();
    input.city = "".to_string();
    input.country = "".to_string();
    let res = contacts::create_customer(&mut state, &input);
    assert_eq!(res.status(), 400u16);
}

#[test]
fn test_supplier_invalid_name() {
    let mut state = AppState::from(MockAppState::new());
    let mut input = contact_input("", 5);
    input.street1 = "".to_string();
    input.street2 = "".to_string();
    input.postal_code = "".to_string();
    input.city = "".to_string();
    input.country = "".to_string();
    let res = contacts::create_supplier(&mut state, &input);
    assert_eq!(res.status(), 400u16);
}

#[test]
fn test_customer_invalid_account() {
    let mut state = AppState::from(MockAppState::new());
    let res = contacts::create_customer(&mut state, &contact_input("Example Inc.", -5));
    assert_eq!(res.status(), 400u16);
}

#[test]
fn contacts_create_test_supplier_invalid_account() {
    let mut state = AppState::from(MockAppState::new());
    let res = contacts::create_supplier(&mut state, &contact_input("Example Inc.", -5));
    assert_eq!(res.status(), 400u16);
}

#[test]
fn test_customer_account_not_found() {
    let mut state = AppState::from(MockAppState::new());
    let res = contacts::create_customer(&mut state, &contact_input("Example Inc.", 5));
    assert_eq!(res.status(), 404u16);
}

#[test]
fn test_supplier_account_not_found() {
    let mut state = AppState::from(MockAppState::new());
    let res = contacts::create_supplier(&mut state, &contact_input("Example Inc.", 5));
    assert_eq!(res.status(), 404u16);
}

fn seed_customers(state: &mut AppState, n: i32) {
    seed_accounts(state, 1);
    let mut i = 0;
    while i < n {
        let res = contacts::create_customer(state, &contact_input("Example Inc.", 1));
        assert_eq!(res.status(), 200u16);
        i += 1;
    }
}

fn seed_suppliers(state: &mut AppState, n: i32) {
    seed_accounts(state, 1);
    let mut i = 0;
    while i < n {
        let res = contacts::create_supplier(state, &contact_input("Example Inc.", 1));
        assert_eq!(res.status(), 200u16);
        i += 1;
    }
}

#[test]
fn contacts_delete_test_customer_success() {
    let mut state = AppState::from(MockAppState::new());
    seed_customers(&mut state, 5);
    let res = contacts::delete_customer(&mut state, 5);
    assert_eq!(res.status(), 204u16);
}

#[test]
fn contacts_delete_test_supplier_success() {
    let mut state = AppState::from(MockAppState::new());
    seed_suppliers(&mut state, 5);
    let res = contacts::delete_supplier(&mut state, 5);
    assert_eq!(res.status(), 204u16);
}

#[test]
fn test_customer_not_found() {
    let mut state = AppState::from(MockAppState::new());
    let res = contacts::delete_customer(&mut state, 5);
    assert_eq!(res.status(), 404u16);
}

#[test]
fn test_supplier_not_found() {
    let mut state = AppState::from(MockAppState::new());
    let res = contacts::delete_supplier(&mut state, 5);
    assert_eq!(res.status(), 404u16);
}

#[test]
fn contacts_get_test_customer_success() {
    let mut state = AppState::from(MockAppState::new());
    seed_customers(&mut state, 5);
    let res = contacts::get_customer(&state, 5);
    assert_eq!(res.status(), 200u16);
    match res {
        ApiResponse::Success(payload) => {
            assert_eq!(payload.id, 5);
            assert_eq!(payload.name, "Example Inc.".to_string());
            assert_eq!(payload.is_customer, true);
            assert_eq!(payload.is_supplier, false);
            assert_eq!(payload.street1, "street1".to_string());
            assert_eq!(payload.street2, "street2".to_string());
            assert_eq!(payload.postal_code, "postalCode".to_string());
            assert_eq!(payload.city, "city".to_string());
            assert_eq!(payload.country, "country".to_string());
        }
        _ => panic!("expected a customer"),
    }
}

#[test]
fn contacts_get_test_supplier_success() {
    let mut state = AppState::from(MockAppState::new());
    seed_suppliers(&mut state, 5);
    let res = contacts::get_supplier(&state, 5);
    assert_eq!(res.status(), 200u16);
    match res {
        ApiResponse::Success(payload) => {
            assert_eq!(payload.id, 5);
            assert_eq!(payload.name, "Example Inc.".to_string());
            assert_eq!(payload.is_customer, false);
            assert_eq!(payload.is_supplier, true);
        }
        _ => panic!("expected a supplier"),
    }
}

#[test]
fn test_customer_not_found1() {
    let state = AppState::from(MockAppState::new());
    let res = contacts::get_customer(&state, 5);
    assert_eq!(res.status(), 404u16);
}

#[test]
fn test_customer_not_found2() {
    let mut state = AppState::from(MockAppState::new());
    seed_suppliers(&mut state, 5);
    let res = contacts::get_customer(&state, 5);
    assert_eq!(res.status(), 404u16);
}

#[test]
fn test_supplier_not_found1() {
    let state = AppState::from(MockAppState::new());
    let res = contacts::get_supplier(&state, 5);
    assert_eq!(res.status(), 404u16);
}

#[test]
fn test_supplier_not_found2() {
    let mut state = AppState::from(MockAppState::new());
    seed_customers(&mut state, 5);
    let res = contacts::get_supplier(&state, 5);
    assert_eq!(res.status(), 404u16);
}

#[test]
fn test_customer_success1() {
    let state = AppState::from(MockAppState::new());
    let input = ListContactsInput { limit: Some(13), offset: Some(5) };
    let res = contacts::list_customers(&state, &input);
    assert_eq!(res.status(), 200u16);
    match res {
        ApiResponse::Success(page) => {
            assert_eq!(page.limit, 13);
            assert_eq!(page.offset, 5);
            assert_eq!(page.total, 0);
            assert_eq!(page.data.len(), 0);
        }
        _ => panic!("expected a page"),
    }
}

#[test]
fn test_customer_success2() {
    let state = AppState::from(MockAppState::new());
    let input = ListContactsInput { limit: None, offset: None };
    let res = contacts::list_customers(&state, &input);
    assert_eq!(res.status(), 200u16);
    match res {
        ApiResponse::Success(page) => {
            assert_eq!(page.limit, 100);
            assert_eq!(page.offset, 0);
            assert_eq!(page.total, 0);
        }
        _ => panic!("expected a page"),
    }
}

#[test]
fn test_supplier_success1() {
    let state = AppState::from(MockAppState::new());
    let input = ListContactsInput { limit: Some(13), offset: Some(5) };
    let res = contacts::list_suppliers(&state, &input);
    assert_eq!(res.status(), 200u16);
    match res {
        ApiResponse::Success(page) => {
            assert_eq!(page.limit, 13);
            assert_eq!(page.offset, 5);
            assert_eq!(page.total, 0);
        }
        _ => panic!("expected a page"),
    }
}

#[test]
fn test_supplier_success2() {
    let state = AppState::from(MockAppState::new());
    let input = ListContactsInput { limit: None, offset: None };
    let res = contacts::list_suppliers(&state, &input);
    assert_eq!(res.status(), 200u16);
    match res {
        ApiResponse::Success(page) => {
            assert_eq!(page.limit, 100);
            assert_eq!(page.offset, 0);
            assert_eq!(page.total, 0);
        }
        _ => panic!("expected a page"),
    }
}

#[test]
fn contacts_list_only_customers_are_listed() {
    let mut state = AppState::from(MockAppState::new());
    seed_customers(&mut state, 3);
    let mut i = 0;
    while i < 2 {
        let res = contacts::create_supplier(&mut state, &contact_input("Example Inc.", 1));
        assert_eq!(res.status(), 200u16);
        i += 1;
    }
    let input = ListContactsInput { limit: None, offset: None };
    match contacts::list_customers(&state, &input) {
        ApiResponse::Success(page) => {
            assert_eq!(page.total, 3);
            assert_eq!(page.data.len(), 3);
            for m in &page.data {
                assert!(m.is_customer);
            }
        }
        _ => panic!("expected a page"),
    }
    match contacts::list_suppliers(&state, &input) {
        ApiResponse::Success(page) => {
            assert_eq!(page.total, 2);
            assert_eq!(page.data.len(), 2);
            for m in &page.data {
                assert!(m.is_supplier);
            }
        }
        _ => panic!("expected a page"),
    }
}

#[test]
fn contacts_list_pagination_window() {
    let mut state = AppState::from(MockAppState::new());
    seed_customers(&mut state, 7);
    let input = ListContactsInput { limit: Some(3), offset: Some(2) };
    match contacts::list_customers(&state, &input) {
        ApiResponse::Success(page) => {
            assert_eq!(page.total, 7);
            assert_eq!(page.data.len(), 3);
            assert_eq!(page.data[0].id, 3);
            assert_eq!(page.data[1].id, 4);
            assert_eq!(page.data[2].id, 5);
        }
        _ => panic!("expected a page"),
    }
    let tail = ListContactsInput { limit: Some(100), offset: Some(5) };
    match contacts::list_customers(&state, &tail) {
        ApiResponse::Success(page) => {
            assert_eq!(page.total, 7);
            assert_eq!(page.data.len(), 2);
        }
        _ => panic!("expected a page"),
    }
}

#[test]
fn contacts_list_rejects_limit_out_of_bounds() {
    let state = AppState::from(MockAppState::new());
    let zero = ListContactsInput { limit: Some(0), offset: None };
    assert_eq!(contacts::list_customers(&state, &zero).status(), 400u16);
    let big = ListContactsInput { limit: Some(101), offset: None };
    assert_eq!(contacts::list_customers(&state, &big).status(), 400u16);
    let edge_low = ListContactsInput { limit: Some(1), offset: None };
    assert_eq!(contacts::list_customers(&state, &edge_low).status(), 200u16);
    let edge_high = ListContactsInput { limit: Some(100), offset: None };
    assert_eq!(contacts::list_customers(&state, &edge_high).status(), 200u16);
}

#[test]
fn contacts_delete_removes_only_the_target() {
    let mut state = AppState::from(MockAppState::new());
    seed_customers(&mut state, 3);
    assert_eq!(contacts::delete_customer(&mut state, 2).status(), 204u16);
    assert_eq!(contacts::get_customer(&state, 2).status(), 404u16);
    assert_eq!(contacts::get_customer(&state, 1).status(), 200u16);
    assert_eq!(contacts::get_customer(&state, 3).status(), 200u16);
    assert_eq!(contacts::delete_customer(&mut state, 2).status(), 404u16);
}
