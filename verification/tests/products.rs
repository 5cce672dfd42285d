use erp_backend::handlers::products;
use erp_backend::models::products::{CreateProductInput, ListProductsInput};
use erp_backend::response::ApiResponse;
use erp_backend::state::{AppState, MockAppState};

fn product_input(name: &str) -> CreateProductInput {
    CreateProductInput { name: name.to_string() }
}

#[test]
fn products_create_test_success() {
    let mut state = AppState::from(MockAppState::new());
    let res = products::create(&mut state, &product_input("Mug"));
    assert_eq!(res.status(), 200u16);
    match res {
        ApiResponse::Success(payload) => {
            assert_eq!(payload.id, 1);
            assert_eq!(payload.name, "Mug".to_string());
        }
        _ => panic!("expected a created product"),
    }
}

#[test]
fn products_create_test_invalid_name() {
    let mut state = AppState::from(MockAppState::new());
    let res = products::create(&mut state, &product_input(""));
    assert_eq!(res.status(), 400u16);
}

#[test]
fn products_create_name_length_bounds() {
    let mut state = AppState::from(MockAppState::new());
    let long: String = "x".repeat(33);
    assert_eq!(products::create(&mut state, &product_input(&long)).status(), 400u16);
    let edge: String = "x".repeat(32);
    assert_eq!(products::create(&mut state, &product_input(&edge)).status(), 200u16);
}

#[test]
fn products_get_test_success() {
    let mut state = AppState::from(MockAppState::new());
    let mut i = 0;
    while i < 5 {
        let res = products::create(&mut state, &product_input("Dummy product"));
        assert_eq!(res.status(), 200u16);
        i += 1;
    }
    let res = products::get(&state, 5);
    assert_eq!(res.status(), 200u16);
    match res {
        ApiResponse::Success(payload) => {
            assert_eq!(payload.id, 5);
            assert_eq!(payload.name, "Dummy product".to_string());
        }
        _ => panic!("expected a product"),
    }
}

#[test]
fn products_get_test_not_found() {
    let state = AppState::from(MockAppState::new());
    let res = products::get(&state, 5);
    assert_eq!(res.status(), 404u16);
}

#[test]
fn products_list_test_success() {
    let mut state = AppState::from(MockAppState::new());
    assert_eq!(products::create(&mut state, &product_input("Mug")).status(), 200u16);
    assert_eq!(products::create(&mut state, &product_input("Shirt")).status(), 200u16);
    let input = ListProductsInput { limit: None, offset: None };
    let res = products::list(&state, &input);
    assert_eq!(res.status(), 200u16);
    match res {
        ApiResponse::Success(page) => {
            assert_eq!(page.limit, 100);
            assert_eq!(page.offset, 0);
            assert_eq!(page.total, 2);
            assert_eq!(page.data.len(), 2);
        }
        _ => panic!("expected a page"),
    }
}

#[test]
fn test_success_with_limit_and_offset() {
    let mut state = AppState::from(MockAppState::new());
    assert_eq!(products::create(&mut state, &product_input("Mug")).status(), 200u16);
    assert_eq!(products::create(&mut state, &product_input("Shirt")).status(), 200u16);
    let input = ListProductsInput { limit: Some(50), offset: Some(5) };
    let res = products::list(&state, &input);
    assert_eq!(res.status(), 200u16);
    match res {
        ApiResponse::Success(page) => {
            assert_eq!(page.limit, 50);
            assert_eq!(page.offset, 5);
            assert_eq!(page.total, 2);
            assert_eq!(page.data.len(), 0);
        }
        _ => panic!("expected a page"),
    }
}

#[test]
fn products_delete_success_then_not_found() {
    let mut state = AppState::from(MockAppState::new());
    assert_eq!(products::create(&mut state, &product_input("Mug")).status(), 200u16);
    assert_eq!(products::delete(&mut state, 1).status(), 204u16);
    assert_eq!(products::delete(&mut state, 1).status(), 404u16);
    assert_eq!(products::get(&state, 1).status(), 404u16);
}
