use erp_backend::handlers::users;
use erp_backend::models::users::{CreateUserInput, ListUsersInput};
use erp_backend::response::ApiResponse;
use erp_backend::state::{AppState, MockAppState};

fn user_input(email: &str, password: &str, first_name: &str, last_name: &str) -> CreateUserInput {
    CreateUserInput {
        email: email.to_string(),
        password: password.to_string(),
        first_name: first_name.to_string(),
        last_name: last_name.to_string(),
    }
}

#[test]
fn users_create_test_success() {
    let mut state = AppState::from(MockAppState::new());
    let res = users::create(
        &mut state,
        &user_input("user@example.org", "Password123!", "Admin", "Example"),
    );
    assert_eq!(res.status(), 200u16);
    match res {
        ApiResponse::Success(payload) => {
            assert_eq!(payload.id, 1);
            assert_eq!(payload.email, "user@example.org".to_string());
            assert_eq!(payload.first_name, "Admin".to_string());
            assert_eq!(payload.last_name, "Example".to_string());
        }
        _ => panic!("expected a created user"),
    }
}

#[test]
fn test_email_already_exists() {
    let mut state = AppState::from(MockAppState::new());
    let input = user_input("user@example.org", "Password123!", "Admin", "Example");
    assert_eq!(users::create(&mut state, &input).status(), 200u16);
    let res = users::create(&mut state, &input);
    assert_eq!(res.status(), 409u16);
}

#[test]
fn test_insecure_password() {
    let mut state = AppState::from(MockAppState::new());
    let res = users::create(&mut state, &user_input("user@example.org", "a", "Admin", "Example"));
    assert_eq!(res.status(), 400u16);
}

#[test]
fn test_invalid_email() {
    let mut state = AppState::from(MockAppState::new());
    let res = users::create(&mut state, &user_input("email", "password", "Admin", "Example"));
    assert_eq!(res.status(), 400u16);
}

#[test]
fn test_invalid_first_name() {
    let mut state = AppState::from(MockAppState::new());
    let res =
        users::create(&mut state, &user_input("user@example.org", "password", "a", "Example"));
    assert_eq!(res.status(), 400u16);
}

#[test]
fn test_invalid_last_name() {
    let mut state = AppState::from(MockAppState::new());
    let res = users::create(&mut state, &user_input("user@example.org", "password", "Admin", "a"));
    assert_eq!(res.status(), 400u16);
}

#[test]
fn users_stored_hash_is_not_the_password_and_is_not_returned() {
    let mut state = AppState::from(MockAppState::new());
    let res = users::create(
        &mut state,
        &user_input("user@example.org", "Password123!", "Admin", "Example"),
    );
    match res {
        ApiResponse::Success(payload) => {
            // The model has no password field at all; its e-mail and names
            // carry no trace of the password.
            assert_eq!(payload.email, "user@example.org".to_string());
            assert_eq!(payload.first_name, "Admin".to_string());
            assert_eq!(payload.last_name, "Example".to_string());
        }
        _ => panic!("expected a created user"),
    }
    // The stored row carries a bcrypt hash, not the password itself.
    let rec = state.users.get(1).expect("the row must be there");
    assert_ne!(rec.pass_hash, "Password123!".to_string());
    assert!(!rec.pass_hash.is_empty());
}

#[test]
fn users_get_test_success() {
    let mut state = AppState::from(MockAppState::new());
    let mut i = 0;
    while i < 5 {
        let email = format!("erp{}@example.org", i);
        let res = users::create(&mut state, &user_input(&email, "Password123!", "erp", "admin"));
        assert_eq!(res.status(), 200u16);
        i += 1;
    }
    let res = users::get(&state, 5);
    assert_eq!(res.status(), 200u16);
    match res {
        ApiResponse::Success(payload) => {
            assert_eq!(payload.id, 5);
            assert_eq!(payload.first_name, "erp".to_string());
            assert_eq!(payload.last_name, "admin".to_string());
        }
        _ => panic!("expected a user"),
    }
}

#[test]
fn users_get_test_not_found() {
    let state = AppState::from(MockAppState::new());
    let res = users::get(&state, 5);
    assert_eq!(res.status(), 404u16);
}

#[test]
fn users_list_test_success1() {
    let mut state = AppState::from(MockAppState::new());
    assert_eq!(
        users::create(&mut state, &user_input("user1@example.org", "Password123!", "User1", "Exampel"))
            .status(),
        200u16
    );
    assert_eq!(
        users::create(&mut state, &user_input("user2@example.org", "Password123!", "User2", "Exampel"))
            .status(),
        200u16
    );
    let input = ListUsersInput { limit: None, offset: None };
    let res = users::list(&state, &input);
    assert_eq!(res.status(), 200u16);
    match res {
        ApiResponse::Success(page) => {
            assert_eq!(page.total, 2);
            assert_eq!(page.data.len(), 2);
            assert_eq!(page.data[0].email, "user1@example.org".to_string());
            assert_eq!(page.data[1].email, "user2@example.org".to_string());
        }
        _ => panic!("expected a page"),
    }
}

#[test]
fn users_list_test_success2() {
    let mut state = AppState::from(MockAppState::new());
    assert_eq!(
        users::create(&mut state, &user_input("user1@example.org", "Password123!", "User1", "Exampel"))
            .status(),
        200u16
    );
    assert_eq!(
        users::create(&mut state, &user_input("user2@example.org", "Password123!", "User2", "Exampel"))
            .status(),
        200u16
    );
    let input = ListUsersInput { limit: Some(13), offset: Some(3) };
    let res = users::list(&state, &input);
    assert_eq!(res.status(), 200u16);
    match res {
        ApiResponse::Success(page) => {
            assert_eq!(page.total, 2);
            assert_eq!(page.limit, 13);
            assert_eq!(page.offset, 3);
        }
        _ => panic!("expected a page"),
    }
}

#[test]
fn test_none_found() {
    let state = AppState::from(MockAppState::new());
    let input = ListUsersInput { limit: None, offset: None };
    let res = users::list(&state, &input);
    assert_eq!(res.status(), 200u16);
    match res {
        ApiResponse::Success(page) => {
            assert_eq!(page.total, 0);
            assert_eq!(page.data.len(), 0);
        }
        _ => panic!("expected a page"),
    }
}

#[test]
fn users_delete_success_then_not_found() {
    let mut state = AppState::from(MockAppState::new());
    assert_eq!(
        users::create(&mut state, &user_input("user@example.org", "Password123!", "Admin", "Example"))
            .status(),
        200u16
    );
    assert_eq!(users::delete(&mut state, 1).status(), 204u16);
    assert_eq!(users::delete(&mut state, 1).status(), 404u16);
}

#[test]
fn users_deleting_frees_the_email_for_reuse() {
    let mut state = AppState::from(MockAppState::new());
    let input = user_input("user@example.org", "Password123!", "Admin", "Example");
    assert_eq!(users::create(&mut state, &input).status(), 200u16);
    assert_eq!(users::create(&mut state, &input).status(), 409u16);
    assert_eq!(users::delete(&mut state, 1).status(), 204u16);
    assert_eq!(users::create(&mut state, &input).status(), 200u16);
}
