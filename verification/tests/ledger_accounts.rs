use erp_backend::handlers::ledger_accounts;
use erp_backend::models::ledger_accounts::{CreateLedgerAccountInput, ListLedgerAccountsInput};
use erp_backend::response::ApiResponse;
use erp_backend::state::{AppState, MockAppState};

fn account_input(account_type: &str, name: &str) -> CreateLedgerAccountInput {
    CreateLedgerAccountInput {
        account_type: account_type.to_string(),
        name: name.to_string(),
    }
}

#[test]
fn ledger_accounts_create_test_success() {
    let mut state = AppState::from(MockAppState::new());
    let res = ledger_accounts::create(&mut state, &account_input("asset", "bank"));
    assert_eq!(res.status(), 200u16);
    match res {
        ApiResponse::Success(payload) => {
            assert_eq!(payload.id, 1);
            assert_eq!(payload.account_type, "asset".to_string());
            assert_eq!(payload.name, "bank".to_string());
        }
        _ => panic!("expected a created account"),
    }
}

#[test]
fn test_empty1() {
    let mut state = AppState::from(MockAppState::new());
    let res = ledger_accounts::create(&mut state, &account_input("", "bank"));
    assert_eq!(res.status(), 400u16);
}

#[test]
fn test_empty2() {
    let mut state = AppState::from(MockAppState::new());
    let res = ledger_accounts::create(&mut state, &account_input("asset", ""));
    assert_eq!(res.status(), 400u16);
}

#[test]
fn test_empty3() {
    let mut state = AppState::from(MockAppState::new());
    let res = ledger_accounts::create(&mut state, &account_input("", ""));
    assert_eq!(res.status(), 400u16);
}

#[test]
fn test_invalid_type1() {
    let mut state = AppState::from(MockAppState::new());
    let res = ledger_accounts::create(&mut state, &account_input("invalid", "bank"));
    assert_eq!(res.status(), 400u16);
}

#[test]
fn test_invalid_type2() {
    let mut state = AppState::from(MockAppState::new());
    let res = ledger_accounts::create(&mut state, &account_input("ASSET", "bank"));
    assert_eq!(res.status(), 400u16);
}

#[test]
fn ledger_accounts_all_four_types_are_accepted() {
    let mut state = AppState::from(MockAppState::new());
    for t in ["asset", "liability", "income", "expense"] {
        let res = ledger_accounts::create(&mut state, &account_input(t, "bank"));
        assert_eq!(res.status(), 200u16);
    }
}

#[test]
fn ledger_accounts_invalid_type_reports_the_named_error() {
    let mut state = AppState::from(MockAppState::new());
    match ledger_accounts::create(&mut state, &account_input("cash", "bank")) {
        ApiResponse::Error(e) => {
            assert_eq!(e.status(), 400u16);
            assert_eq!(e.code(), "INVALID_ACCOUNT_TYPE");
            assert_eq!(
                e.message(),
                "Invalid account type. Must be asset, liability, income or expense"
            );
        }
        _ => panic!("expected the invalid-account-type error"),
    }
}

#[test]
fn ledger_accounts_get_test_success() {
    let mut state = AppState::from(MockAppState::new());
    let mut i = 0;
    while i < 5 {
        let res = ledger_accounts::create(&mut state, &account_input("asset", "Bank"));
        assert_eq!(res.status(), 200u16);
        i += 1;
    }
    let res = ledger_accounts::get(&state, 5);
    assert_eq!(res.status(), 200u16);
    match res {
        ApiResponse::Success(payload) => {
            assert_eq!(payload.id, 5);
            assert_eq!(payload.account_type, "asset".to_string());
            assert_eq!(payload.name, "Bank".to_string());
        }
        _ => panic!("expected an account"),
    }
}

#[test]
fn ledger_accounts_get_test_not_found() {
    let state = AppState::from(MockAppState::new());
    let res = ledger_accounts::get(&state, 5);
    assert_eq!(res.status(), 404u16);
}

#[test]
fn ledger_accounts_list_test_success1() {
    let mut state = AppState::from(MockAppState::new());
    assert_eq!(ledger_accounts::create(&mut state, &account_input("asset", "Bank")).status(), 200u16);
    assert_eq!(ledger_accounts::create(&mut state, &account_input("asset", "Other")).status(), 200u16);
    let input = ListLedgerAccountsInput { limit: None, offset: None };
    let res = ledger_accounts::list(&state, &input);
    assert_eq!(res.status(), 200u16);
    match res {
        ApiResponse::Success(page) => {
            assert_eq!(page.total, 2);
            assert_eq!(page.limit, 100);
            assert_eq!(page.offset, 0);
            assert_eq!(page.data.len(), 2);
            assert_eq!(page.data[0].name, "Bank".to_string());
            assert_eq!(page.data[1].name, "Other".to_string());
        }
        _ => panic!("expected a page"),
    }
}

#[test]
fn ledger_accounts_list_test_success2() {
    let mut state = AppState::from(MockAppState::new());
    assert_eq!(ledger_accounts::create(&mut state, &account_input("asset", "Bank")).status(), 200u16);
    assert_eq!(ledger_accounts::create(&mut state, &account_input("asset", "Other")).status(), 200u16);
    let input = ListLedgerAccountsInput { limit: Some(13), offset: Some(3) };
    let res = ledger_accounts::list(&state, &input);
    assert_eq!(res.status(), 200u16);
    match res {
        ApiResponse::Success(page) => {
            assert_eq!(page.total, 2);
            assert_eq!(page.limit, 13);
            assert_eq!(page.offset, 3);
            assert_eq!(page.data.len(), 0);
        }
        _ => panic!("expected a page"),
    }
}

#[test]
fn ledger_accounts_delete_success_then_not_found() {
    let mut state = AppState::from(MockAppState::new());
    assert_eq!(ledger_accounts::create(&mut state, &account_input("asset", "Bank")).status(), 200u16);
    assert_eq!(ledger_accounts::delete(&mut state, 1).status(), 204u16);
    assert_eq!(ledger_accounts::delete(&mut state, 1).status(), 404u16);
    assert_eq!(ledger_accounts::get(&state, 1).status(), 404u16);
}
