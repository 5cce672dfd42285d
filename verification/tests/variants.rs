use erp_backend::handlers::{products, variants};
use erp_backend::models::products::CreateProductInput;
use erp_backend::models::variants::{CreateVariantInput, ListVariantsInput, VariantsPath};
use erp_backend::response::ApiResponse;
use erp_backend::state::{AppState, MockAppState};

fn variant_input(name: &str, sale: i32, purchase: i32, product_id: i32) -> CreateVariantInput {
    CreateVariantInput {
        name: name.to_string(),
        sale_price: sale,
        purchase_price: purchase,
        product_id,
    }
}

fn seed_products(state: &mut AppState, n: i32) {
    let mut i = 0;
    while i < n {
        let input = CreateProductInput { name: "Mug".to_string() };
        assert_eq!(products::create(state, &input).status(), 200u16);
        i += 1;
    }
}

#[test]
fn variants_create_test_success() {
    let mut state = AppState::from(MockAppState::new());
    seed_products(&mut state, 5);
    let res = variants::create(&mut state, &variant_input("Red Mug", 1200, 1000, 5));
    assert_eq!(res.status(), 200u16);
    match res {
        ApiResponse::Success(payload) => {
            assert_eq!(payload.id, 1);
            assert_eq!(payload.name, "Red Mug".to_string());
            assert_eq!(payload.sale_price, 1200);
            assert_eq!(payload.purchase_price, 1000);
            assert_eq!(payload.product_id, 5);
        }
        _ => panic!("expected a created variant"),
    }
}

#[test]
fn test_product_id_not_found() {
    let mut state = AppState::from(MockAppState::new());
    let res = variants::create(&mut state, &variant_input("Red Mug", 1200, 1000, 5));
    assert_eq!(res.status(), 404u16);
}

#[test]
fn variants_create_test_invalid_product_id() {
    let mut state = AppState::from(MockAppState::new());
    let res = variants::create(&mut state, &variant_input("Red Mug", 1200, 1000, -5));
    assert_eq!(res.status(), 400u16);
}

#[test]
fn variants_create_test_invalid_name() {
    let mut state = AppState::from(MockAppState::new());
    seed_products(&mut state, 5);
    let res = variants::create(&mut state, &variant_input("", 1200, 1000, 5));
    assert_eq!(res.status(), 400u16);
}

#[test]
fn variants_create_negative_prices_are_rejected() {
    let mut state = AppState::from(MockAppState::new());
    seed_products(&mut state, 1);
    assert_eq!(variants::create(&mut state, &variant_input("Red Mug", -1, 0, 1)).status(), 400u16);
    assert_eq!(variants::create(&mut state, &variant_input("Red Mug", 0, -1, 1)).status(), 400u16);
    assert_eq!(variants::create(&mut state, &variant_input("Red Mug", 0, 0, 1)).status(), 200u16);
}

#[test]
fn variants_list_test_success() {
    let mut state = AppState::from(MockAppState::new());
    seed_products(&mut state, 5);
    let mut i = 0;
    while i < 3 {
        assert_eq!(
            variants::create(&mut state, &variant_input("Red Mug", 1200, 1000, 5)).status(),
            200u16
        );
        i += 1;
    }
    let input = ListVariantsInput { limit: None, offset: None };
    let res = variants::list(&state, 5, &input);
    assert_eq!(res.status(), 200u16);
    match res {
        ApiResponse::Success(page) => {
            assert_eq!(page.total, 3);
            assert_eq!(page.data.len(), 3);
            for m in &page.data {
                assert_eq!(m.product_id, 5);
            }
        }
        _ => panic!("expected a page"),
    }
}

#[test]
fn variants_list_test_invalid_product_id() {
    let state = AppState::from(MockAppState::new());
    let input = ListVariantsInput { limit: None, offset: None };
    let res = variants::list(&state, 5, &input);
    assert_eq!(res.status(), 404u16);
}

#[test]
fn variants_list_is_scoped_to_the_product() {
    let mut state = AppState::from(MockAppState::new());
    seed_products(&mut state, 2);
    assert_eq!(variants::create(&mut state, &variant_input("A", 1, 1, 1)).status(), 200u16);
    assert_eq!(variants::create(&mut state, &variant_input("B", 1, 1, 2)).status(), 200u16);
    assert_eq!(variants::create(&mut state, &variant_input("C", 1, 1, 1)).status(), 200u16);
    let input = ListVariantsInput { limit: None, offset: None };
    match variants::list(&state, 1, &input) {
        ApiResponse::Success(page) => {
            assert_eq!(page.total, 2);
            assert_eq!(page.data.len(), 2);
            assert_eq!(page.data[0].name, "A".to_string());
            assert_eq!(page.data[1].name, "C".to_string());
        }
        _ => panic!("expected a page"),
    }
}

#[test]
fn variants_get_and_delete_report_the_named_error() {
    let mut state = AppState::from(MockAppState::new());
    let path = VariantsPath { id: 5 };
    match variants::get(&state, &path) {
        ApiResponse::Error(e) => {
            assert_eq!(e.status(), 404u16);
            assert_eq!(e.code(), "VARIANT_NOT_FOUND");
            assert_eq!(e.message(), "Variant not found");
        }
        _ => panic!("expected the variant-not-found error"),
    }
    match variants::delete(&mut state, &path) {
        ApiResponse::Error(e) => {
            assert_eq!(e.status(), 404u16);
        }
        _ => panic!("expected the variant-not-found error"),
    }
    let bad = VariantsPath { id: 0 };
    assert_eq!(variants::get(&state, &bad).status(), 400u16);
    assert_eq!(variants::delete(&mut state, &bad).status(), 400u16);
}

#[test]
fn variants_delete_success() {
    let mut state = AppState::from(MockAppState::new());
    seed_products(&mut state, 1);
    assert_eq!(variants::create(&mut state, &variant_input("Red Mug", 1200, 1000, 1)).status(), 200u16);
    let path = VariantsPath { id: 1 };
    assert_eq!(variants::delete(&mut state, &path).status(), 204u16);
    assert_eq!(variants::get(&state, &path).status(), 404u16);
}
