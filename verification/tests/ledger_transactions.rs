use erp_backend::handlers::ledger_transactions;
use erp_backend::models::ledger_transactions::{
    CreateLedgerTransactionInput, ListLedgerTransactionsInput,
};
use erp_backend::response::ApiResponse;
use erp_backend::state::{AppState, MockAppState};

fn transaction_input(debit: i32, credit: i32, date: &str, amount: i32) -> CreateLedgerTransactionInput {
    CreateLedgerTransactionInput {
        debit_account_id: debit,
        credit_account_id: credit,
        date: date.to_string(),
        amount,
    }
}

#[test]
fn ledger_transactions_create_test_success() {
    let mut state = AppState::from(MockAppState::new());
    let res = ledger_transactions::create(&mut state, &transaction_input(1, 2, "2025-07-01", 1337));
    assert_eq!(res.status(), 200u16);
    match res {
        ApiResponse::Success(payload) => {
            assert_eq!(payload.id, 1);
            assert_eq!(payload.debit_account_id, 1);
            assert_eq!(payload.credit_account_id, 2);
            assert_eq!(payload.date, "2025-07-01".to_string());
            assert_eq!(payload.amount, 1337);
        }
        _ => panic!("expected a created transaction"),
    }
}

#[test]
fn test_empty() {
    let mut state = AppState::from(MockAppState::new());
    let res = ledger_transactions::create(&mut state, &transaction_input(0, 0, "", 0));
    assert_eq!(res.status(), 400u16);
}

#[test]
fn test_invalid_account() {
    let mut state = AppState::from(MockAppState::new());
    let res = ledger_transactions::create(&mut state, &transaction_input(-5, 2, "2025-07-01", 1337));
    assert_eq!(res.status(), 400u16);
    let res = ledger_transactions::create(&mut state, &transaction_input(1, -5, "2025-07-01", 1337));
    assert_eq!(res.status(), 400u16);
}

#[test]
fn test_invalid_date() {
    let mut state = AppState::from(MockAppState::new());
    let res = ledger_transactions::create(&mut state, &transaction_input(1, 2, "invalid", 1337));
    assert_eq!(res.status(), 400u16);
}

#[test]
fn test_invalid_amount() {
    let mut state = AppState::from(MockAppState::new());
    let res = ledger_transactions::create(&mut state, &transaction_input(1, 2, "2025-07-01", -1337));
    assert_eq!(res.status(), 400u16);
}

#[test]
fn ledger_transactions_date_shape_edges() {
    let mut state = AppState::from(MockAppState::new());
    // Only the shape is checked, not the calendar.
    assert_eq!(
        ledger_transactions::create(&mut state, &transaction_input(1, 2, "9999-99-99", 1)).status(),
        200u16
    );
    for bad in ["2025-7-01", "2025-07-1", "2025/07/01", "2025-07-011", "20250701", ""] {
        assert_eq!(
            ledger_transactions::create(&mut state, &transaction_input(1, 2, bad, 1)).status(),
            400u16
        );
    }
}

#[test]
fn ledger_transactions_get_test_success() {
    let mut state = AppState::from(MockAppState::new());
    let mut i = 0;
    while i < 5 {
        let res =
            ledger_transactions::create(&mut state, &transaction_input(1, 2, "2025-07-01", 1337));
        assert_eq!(res.status(), 200u16);
        i += 1;
    }
    let res = ledger_transactions::get(&state, 5);
    assert_eq!(res.status(), 200u16);
    match res {
        ApiResponse::Success(payload) => {
            assert_eq!(payload.id, 5);
            assert_eq!(payload.debit_account_id, 1);
            assert_eq!(payload.credit_account_id, 2);
        }
        _ => panic!("expected a transaction"),
    }
}

#[test]
fn ledger_transactions_get_test_not_found() {
    let state = AppState::from(MockAppState::new());
    let res = ledger_transactions::get(&state, 5);
    assert_eq!(res.status(), 404u16);
}

#[test]
fn ledger_transactions_delete_test_success() {
    let mut state = AppState::from(MockAppState::new());
    let mut i = 0;
    while i < 5 {
        let res =
            ledger_transactions::create(&mut state, &transaction_input(1, 2, "2025-07-01", 1337));
        assert_eq!(res.status(), 200u16);
        i += 1;
    }
    let res = ledger_transactions::delete(&mut state, 5);
    assert_eq!(res.status(), 204u16);
}

#[test]
fn ledger_transactions_delete_test_not_found() {
    let mut state = AppState::from(MockAppState::new());
    let res = ledger_transactions::delete(&mut state, 5);
    assert_eq!(res.status(), 404u16);
}

#[test]
fn ledger_transactions_list_test_success1() {
    let mut state = AppState::from(MockAppState::new());
    assert_eq!(
        ledger_transactions::create(&mut state, &transaction_input(1, 100, "2025-07-01", 10)).status(),
        200u16
    );
    assert_eq!(
        ledger_transactions::create(&mut state, &transaction_input(1, 101, "2025-07-01", 20)).status(),
        200u16
    );
    let input = ListLedgerTransactionsInput { account_id: 1, limit: None, offset: None };
    let res = ledger_transactions::list(&state, &input);
    assert_eq!(res.status(), 200u16);
    match res {
        ApiResponse::Success(page) => {
            assert_eq!(page.total, 2);
            assert_eq!(page.data.len(), 2);
        }
        _ => panic!("expected a page"),
    }
}

#[test]
fn ledger_transactions_list_test_success2() {
    let mut state = AppState::from(MockAppState::new());
    assert_eq!(
        ledger_transactions::create(&mut state, &transaction_input(5, 100, "2025-07-01", 10)).status(),
        200u16
    );
    assert_eq!(
        ledger_transactions::create(&mut state, &transaction_input(5, 101, "2025-07-01", 20)).status(),
        200u16
    );
    let input = ListLedgerTransactionsInput { account_id: 5, limit: Some(13), offset: Some(3) };
    let res = ledger_transactions::list(&state, &input);
    assert_eq!(res.status(), 200u16);
    match res {
        ApiResponse::Success(page) => {
            assert_eq!(page.total, 2);
            assert_eq!(page.limit, 13);
            assert_eq!(page.offset, 3);
            assert_eq!(page.data.len(), 0);
        }
        _ => panic!("expected a page"),
    }
}

#[test]
fn test_account_not_found() {
    let mut state = AppState::from(MockAppState::new());
    assert_eq!(
        ledger_transactions::create(&mut state, &transaction_input(2, 3, "2025-07-01", 10)).status(),
        200u16
    );
    let input = ListLedgerTransactionsInput { account_id: 1, limit: None, offset: None };
    let res = ledger_transactions::list(&state, &input);
    assert_eq!(res.status(), 200u16);
    match res {
        ApiResponse::Success(page) => {
            assert_eq!(page.total, 0);
            assert_eq!(page.data.len(), 0);
        }
        _ => panic!("expected a page"),
    }
}

#[test]
fn ledger_transactions_list_matches_debit_or_credit() {
    let mut state = AppState::from(MockAppState::new());
    assert_eq!(
        ledger_transactions::create(&mut state, &transaction_input(7, 8, "2025-01-01", 1)).status(),
        200u16
    );
    assert_eq!(
        ledger_transactions::create(&mut state, &transaction_input(9, 7, "2025-01-02", 2)).status(),
        200u16
    );
    assert_eq!(
        ledger_transactions::create(&mut state, &transaction_input(8, 9, "2025-01-03", 3)).status(),
        200u16
    );
    let input = ListLedgerTransactionsInput { account_id: 7, limit: None, offset: None };
    match ledger_transactions::list(&state, &input) {
        ApiResponse::Success(page) => {
            assert_eq!(page.total, 2);
            assert_eq!(page.data.len(), 2);
            assert_eq!(page.data[0].id, 1);
            assert_eq!(page.data[1].id, 2);
        }
        _ => panic!("expected a page"),
    }
}
