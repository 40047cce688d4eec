use k_ruoka_mcp::amount::{Amount, Double};
use k_ruoka_mcp::browser::ApiError;
use k_ruoka_mcp::browser::basket::{
    Cart, clarify_store_error, confirm_absent, confirm_amount, find_item,
};
use k_ruoka_mcp::browser::offers::Offers;
use k_ruoka_mcp::types::{
    AmountInfo, Basket, BasketItem, LocalizedName, PriceSummary, ProductDetails, UserInfo,
};
use serde_json::Value;

fn amount(x: f64) -> Amount {
    Amount {
        value: Double { bits: x.to_bits() },
        shown: x.to_string(),
        json: Value::from(x).to_string(),
    }
}

fn item(id: &str, amount_info: AmountInfo, attributes: Option<Value>) -> BasketItem {
    BasketItem {
        id: id.to_string(),
        ean: id.to_string(),
        name: LocalizedName {
            finnish: None,
            english: None,
            swedish: None,
        },
        amount_info,
        pricing: None,
        allow_substitutes: false,
        product_details: ProductDetails { attributes },
    }
}

fn basket(items: Vec<BasketItem>) -> Basket {
    Basket {
        id: "b1".to_string(),
        items,
        price_summary: PriceSummary {
            items_sub_total: Double { bits: 0 },
            grand_total: Double { bits: 0 },
        },
        store: None,
        user_info: UserInfo {
            first_name: String::new(),
            last_name: String::new(),
            email: String::new(),
        },
    }
}

fn basket_with(ids: &[&str]) -> Basket {
    basket(
        ids.iter()
            .map(|id| item(id, AmountInfo::default(), None))
            .collect(),
    )
}

fn in_unit(x: f64, unit: &str) -> AmountInfo {
    AmountInfo {
        amount: amount(x),
        unit: unit.to_string(),
    }
}

#[test]
fn existing_item_is_found() {
    assert_eq!(find_item(&basket_with(&["abc"]), "abc").unwrap().id, "abc");
}

/// `InvalidRequest`, not `Api`: K-Ruoka was never asked, so an "API error" message would
/// claim something untrue.
#[test]
fn missing_item_reports_the_valid_ids() {
    match find_item(&basket_with(&["abc", "def"]), "xyz") {
        Err(ApiError::InvalidRequest(message)) => {
            assert!(message.contains("abc, def"), "{message}");
            assert!(message.contains("not EANs"), "{message}");
            assert_eq!(
                message,
                "no item \"xyz\" in the cart. Item ids currently in it: abc, def. Note these are \
                 basket item ids from get_cart, not EANs."
            );
        }
        other => panic!("expected InvalidRequest, got {:?}", other.map(|i| &i.id)),
    }
}

#[test]
fn empty_cart_says_so() {
    match find_item(&basket_with(&[]), "xyz") {
        Err(ApiError::InvalidRequest(message)) => {
            assert!(message.contains("empty"), "{message}")
        }
        other => panic!("expected InvalidRequest, got {:?}", other.map(|i| &i.id)),
    }
}

fn basket_with_amounts(items: &[(&str, f64)]) -> Basket {
    basket(
        items
            .iter()
            .map(|(id, x)| item(id, in_unit(*x, "kpl"), None))
            .collect(),
    )
}

#[test]
fn a_set_amount_that_changed_nothing_is_not_a_success() {
    let unchanged = basket_with_amounts(&[("abc", 2.0)]);
    match confirm_amount(&unchanged, "abc", &amount(5.0)) {
        Err(e) => assert_eq!(
            e.describe(),
            "asked K-Ruoka to set item abc to 5 but the cart it returned shows 2."
        ),
        Ok(()) => panic!("expected a discrepancy"),
    }
    assert!(confirm_amount(&unchanged, "abc", &amount(2.0)).is_ok());
}

/// K-Ruoka clamps at 999 and the returned cart shows the truth, so a clamped amount is the
/// API working as measured, not a discrepancy to reject.
#[test]
fn the_999_clamp_is_not_treated_as_a_discrepancy() {
    let clamped = basket_with_amounts(&[("abc", 999.0)]);
    assert!(confirm_amount(&clamped, "abc", &amount(1e9)).is_ok());
    assert!(confirm_amount(&clamped, "abc", &amount(998.0)).is_err());
}

/// Amount 0 is the documented spelling of remove, so absence is the success case and
/// presence is the failure.
#[test]
fn amount_zero_succeeds_only_when_the_item_is_gone() {
    assert!(confirm_amount(&basket_with_amounts(&[]), "abc", &amount(0.0)).is_ok());
    match confirm_amount(&basket_with_amounts(&[("abc", 1.0)]), "abc", &amount(0.0)) {
        Err(e) => assert_eq!(
            e.describe(),
            "asked K-Ruoka to remove item abc (amount 0) but it is still in the cart it \
             returned, with amount 1."
        ),
        Ok(()) => panic!("expected a discrepancy"),
    }
}

#[test]
fn a_vanished_item_fails_a_non_zero_set() {
    match confirm_amount(&basket_with_amounts(&[]), "abc", &amount(3.0)) {
        Err(ApiError::Other(m)) => assert_eq!(
            m,
            "K-Ruoka accepted setting item abc to 3 but the item is not in the cart it returned. \
             Something else probably removed it at the same time; call get_cart to see the \
             current state."
        ),
        other => panic!("expected a discrepancy, got {other:?}"),
    }
}

#[test]
fn a_remove_that_left_the_item_behind_is_not_a_success() {
    match confirm_absent(&basket_with(&["abc"]), "abc") {
        Err(ApiError::Other(m)) => assert_eq!(
            m,
            "K-Ruoka accepted removing item abc but it is still in the cart it returned. Call \
             get_cart to see the current state."
        ),
        other => panic!("expected a discrepancy, got {other:?}"),
    }
    assert!(confirm_absent(&basket_with(&["def"]), "abc").is_ok());
}

/// The unit a caller omits must come from the item, not a constant.
#[test]
fn omitted_unit_is_inherited_from_the_item() {
    let basket = basket(vec![item("x", in_unit(1.5, "kg"), None)]);
    let item = find_item(&basket, "x").unwrap();
    assert_eq!(item.amount_info.unit, "kg");
}

/// `productDetails.attributes` is the marker for "K-Ruoka knows this EAN".
#[test]
fn phantom_products_are_recognisable() {
    let attributes = serde_json::from_str(r#"{"ean": "real"}"#).unwrap();
    let basket = basket(vec![
        item("real", AmountInfo::default(), Some(attributes)),
        // What ADD-ITEM returns for an EAN K-Ruoka has no record of.
        item("phantom", AmountInfo::default(), None),
    ]);
    assert!(find_item(&basket, "real").unwrap().is_known_product());
    assert!(!find_item(&basket, "phantom").unwrap().is_known_product());
}

/// Deliberately not told from `pricing`: a real product that is out of stock could have
/// none, and rejecting a valid add is worse than the bug.
#[test]
fn a_real_product_without_pricing_is_still_known() {
    let attributes = serde_json::from_str("{}").unwrap();
    let basket = basket(vec![item("x", AmountInfo::default(), Some(attributes))]);
    assert!(basket.items[0].pricing.is_none());
    assert!(find_item(&basket, "x").unwrap().is_known_product());
}

#[test]
fn invalid_store_error_names_the_store_the_caller_passed() {
    let raw = ApiError::Api {
        status: 422,
        message: r#"{"name":"InvalidStoreIdError","message":"Invalid store ID undefined"}"#.into(),
    };
    match clarify_store_error(raw, "ZZZZ9") {
        ApiError::Api { message, .. } => {
            assert!(message.contains("ZZZZ9"), "{message}");
            assert!(!message.contains("undefined"), "{message}");
            assert_eq!(
                message,
                "K-Ruoka rejected store id \"ZZZZ9\" as invalid. Store ids look like \"N137\"; \
                 use search_stores to find one."
            );
        }
        other => panic!("expected an Api error, got {other:?}"),
    }
}

/// A plain id stands in the message as it is, whichever characters it is made of; others are
/// escaped.
#[test]
fn ids_are_named_back_in_quotes() {
    let empty = basket_with(&[]);
    let message = |id: &str| match find_item(&empty, id) {
        Err(ApiError::InvalidRequest(message)) => message,
        other => panic!("expected InvalidRequest, got {:?}", other.map(|i| &i.id)),
    };
    let plain: String = (' '..='~').filter(|c| !['"', '\'', '\\'].contains(c)).collect();
    for id in ["", "N137", "a b", plain.as_str()] {
        assert_eq!(
            message(id),
            format!("no item \"{id}\" in the cart -- the cart is empty")
        );
    }
    assert_eq!(
        message("a\"b\\c\n"),
        r#"no item "a\"b\\c\n" in the cart -- the cart is empty"#
    );
}

/// Other errors must pass through untouched, notably AuthExpired, which the caller needs to
/// see as itself.
#[test]
fn clarify_store_error_leaves_other_errors_alone() {
    assert!(matches!(
        clarify_store_error(ApiError::AuthExpired, "N137"),
        ApiError::AuthExpired
    ));
    let other_status = ApiError::Api {
        status: 400,
        message: "InvalidStoreIdError".into(),
    };
    match clarify_store_error(other_status, "N137") {
        ApiError::Api { status: 400, message } => assert_eq!(message, "InvalidStoreIdError"),
        other => panic!("expected the same error, got {other:?}"),
    }
}

#[test]
fn personal_offers_are_asked_for_by_store() {
    let request = Offers::personal_offers("N\"137");
    assert_eq!(request.method, "POST");
    assert_eq!(request.path, "/kr-api/tos-offers");
    assert_eq!(request.body, r#"{"storeId":"N\"137"}"#);
    assert_eq!(
        Offers::unexpected_shape("x").describe(),
        "unexpected tos-offers shape: x"
    );
    assert_eq!(
        Cart::unexpected_shape("x").describe(),
        "unexpected basket shape: x"
    );
}
