//! The tools against a K-Ruoka that behaves as the real one was observed to: it accepts any
//! EAN and inserts a placeholder for one it does not know, and ignores a change to an item
//! that is not there.

use k_ruoka_mcp::amount::{Amount, Double};
use k_ruoka_mcp::browser::ApiError;
use k_ruoka_mcp::browser::basket::{Cart, Request, Step};
use k_ruoka_mcp::mcp::tools::{
    AddArg, AuthArg, AuthStatus, CartServer, RemoveArg, SetDefaultStoreArg, StartLoginArg,
    StoreArg, ToolFailure, UpdateArg, login_unavailable, read_default_store, to_tool_failure,
};
use k_ruoka_mcp::types::{
    AmountInfo, Basket, BasketItem, CartView, LocalizedName, PriceSummary, Pricing,
    ProductDetails, Store, UserInfo,
};
use serde_json::Value;

const STORE: &str = "N137";
const BANANA: &str = "2000818700008";
const LOOSE_MINCE: &str = "2000111100001";
const PHANTOM: &str = "0000000000000";
const BASKET_ID: &str = "c0fa67a6-4b56-4dc6-9a7e-506c2b29b7cf";

fn double(x: f64) -> Double {
    Double { bits: x.to_bits() }
}

fn amount(x: f64) -> Amount {
    Amount {
        value: double(x),
        shown: x.to_string(),
        json: Value::from(x).to_string(),
    }
}

struct Line {
    id: String,
    ean: String,
    amount: f64,
    unit: String,
}

#[derive(Default)]
struct Shop {
    lines: Vec<Line>,
    calls: Vec<(String, String, Value)>,
    failing_with: Option<&'static str>,
    signed_in: Option<(&'static str, &'static str, &'static str)>,
    deaf_to: Vec<&'static str>,
}

impl Shop {
    fn with_item(ean: &str, amount: f64, unit: &str) -> Shop {
        Shop {
            lines: vec![Line {
                id: ean.to_string(),
                ean: ean.to_string(),
                amount,
                unit: unit.to_string(),
            }],
            ..Shop::default()
        }
    }

    fn failing(kind: &'static str) -> Shop {
        Shop {
            failing_with: Some(kind),
            ..Shop::default()
        }
    }

    fn mutations(&self) -> Vec<Value> {
        self.calls
            .iter()
            .filter(|(method, _, _)| method == "PATCH")
            .map(|(_, _, body)| body.clone())
            .collect()
    }

    fn events(&self) -> Vec<String> {
        self.mutations()
            .iter()
            .flat_map(|body| body.as_array().unwrap().clone())
            .map(|event| event["type"].as_str().unwrap().to_string())
            .collect()
    }

    fn apply(&mut self, events: &Value) {
        for event in events.as_array().unwrap() {
            let kind = event["type"].as_str().unwrap();
            if self.deaf_to.contains(&kind) {
                continue;
            }
            let id = event["itemId"].as_str().unwrap_or_default();
            match kind {
                "ADD-ITEM" => {
                    let ean = event["item"]["ean"].as_str().unwrap();
                    let info = &event["item"]["amountInfo"];
                    let amount = info["amount"].as_f64().unwrap().min(999.0);
                    let unit = info["unit"].as_str().unwrap().to_string();
                    match self.lines.iter_mut().find(|l| l.ean == ean) {
                        Some(line) => {
                            line.amount = amount;
                            line.unit = unit;
                        }
                        None => self.lines.push(Line {
                            id: ean.to_string(),
                            ean: ean.to_string(),
                            amount,
                            unit,
                        }),
                    }
                }
                "SET-ITEM-AMOUNT" => {
                    let amount = event["value"]["amount"].as_f64().unwrap();
                    if amount <= 0.0 {
                        self.lines.retain(|l| l.id != id);
                    } else if let Some(line) = self.lines.iter_mut().find(|l| l.id == id) {
                        line.amount = amount;
                        line.unit = event["value"]["unit"].as_str().unwrap().to_string();
                    }
                }
                "REMOVE-ITEM" => self.lines.retain(|l| l.id != id),
                "CLEAR-ITEMS" => self.lines.clear(),
                other => panic!("no such event: {other}"),
            }
        }
    }

    fn basket(&self) -> Basket {
        let total = 0.29 * self.lines.iter().map(|l| l.amount).sum::<f64>();
        let (first, last, email) = self.signed_in.unwrap_or(("", "", ""));
        Basket {
            id: BASKET_ID.to_string(),
            items: self
                .lines
                .iter()
                .map(|l| BasketItem {
                    id: l.id.clone(),
                    ean: l.ean.clone(),
                    name: LocalizedName {
                        finnish: Some("Pirkka banaani".to_string()),
                        english: Some("Pirkka banana".to_string()),
                        swedish: None,
                    },
                    amount_info: AmountInfo {
                        amount: amount(l.amount),
                        unit: l.unit.clone(),
                    },
                    pricing: Some(Pricing {
                        price: Some(double(0.29)),
                        unit: Some("kg".to_string()),
                        is_approximate: l.unit == "kg",
                    }),
                    allow_substitutes: true,
                    product_details: ProductDetails {
                        attributes: if l.ean == PHANTOM {
                            None
                        } else {
                            Some(Value::from("known"))
                        },
                    },
                })
                .collect(),
            price_summary: PriceSummary {
                items_sub_total: double(total),
                grand_total: double(total),
            },
            store: Some(Store {
                id: STORE.to_string(),
                name: "K-Citymarket Helsinki Ruoholahti".to_string(),
            }),
            user_info: UserInfo {
                first_name: first.to_string(),
                last_name: last.to_string(),
                email: email.to_string(),
            },
        }
    }

    fn call(&mut self, request: &Request) -> Result<Basket, ApiError> {
        let body: Value = serde_json::from_str(&request.body).unwrap();
        self.calls.push((
            request.method.to_string(),
            request.path.clone(),
            body.clone(),
        ));
        match self.failing_with {
            Some("auth") => return Err(ApiError::AuthExpired),
            Some("cloudflare") => {
                return Err(ApiError::Cloudflare {
                    detail: "API response, status 403, cf-mitigated: challenge".into(),
                });
            }
            Some("invalid-store") => {
                return Err(ApiError::Api {
                    status: 422,
                    message:
                        r#"{"name":"InvalidStoreIdError","message":"Invalid store ID undefined"}"#
                            .into(),
                });
            }
            _ => {}
        }
        if request.method == "PATCH" {
            assert_eq!(request.path, format!("/kr-api/basket/by-id/{BASKET_ID}"));
            self.apply(&body);
        } else {
            assert_eq!(request.method, "POST");
            assert_eq!(request.path, "/kr-api/basket/active");
            assert_eq!(body["substitutionDefault"], true);
        }
        Ok(self.basket())
    }

    fn run(&mut self, mut step: Step) -> Result<Basket, ApiError> {
        loop {
            match step {
                Step::Send { request, next } => {
                    let reply = self.call(&request);
                    step = Cart::resume(next, reply);
                }
                Step::Done(result) => return result,
            }
        }
    }

    fn tool(&mut self, step: Result<Step, ToolFailure>) -> Result<CartView, String> {
        match step {
            Ok(step) => CartServer::answer(self.run(step)).map_err(|f| f.0),
            Err(f) => Err(f.0),
        }
    }

    fn auth_status(&mut self, server: &CartServer, store_id: Option<&str>) -> Result<AuthStatus, String> {
        let store = server.auth_store(AuthArg {
            store_id: store_id.map(str::to_string),
        });
        let result = self.run(Cart::active(store));
        CartServer::auth_status(result).map_err(|f| f.0)
    }
}

fn store_arg(store_id: &str) -> StoreArg {
    StoreArg {
        store_id: Some(store_id.to_string()),
    }
}

fn add(ean: &str) -> AddArg {
    AddArg {
        store_id: Some(STORE.to_string()),
        ean: ean.to_string(),
        quantity: None,
        unit: None,
        local_store_id: None,
        allow_substitutes: None,
    }
}

fn update(item_id: &str, quantity: f64) -> UpdateArg {
    UpdateArg {
        store_id: Some(STORE.to_string()),
        item_id: item_id.to_string(),
        quantity: amount(quantity),
        unit: None,
    }
}

fn remove(item_id: &str) -> RemoveArg {
    RemoveArg {
        store_id: Some(STORE.to_string()),
        item_id: item_id.to_string(),
    }
}

fn json(text: &str) -> Value {
    serde_json::from_str(text).unwrap()
}

#[test]
fn get_cart_summarises_the_basket() {
    let mut shop = Shop::with_item(BANANA, 2.0, "kpl");
    let cart = shop.tool(CartServer::new().get_cart(store_arg(STORE))).unwrap();
    assert_eq!(cart.store.id, STORE);
    assert_eq!(cart.items.len(), 1);
    assert_eq!(cart.items[0].item_id, BANANA);
    assert_eq!(cart.items[0].amount.value, double(2.0));
    assert_eq!(cart.items[0].name, "Pirkka banaani");
    assert!(shop.mutations().is_empty());
}

#[test]
fn get_cart_reports_price_is_approximate_false_for_a_per_piece_item() {
    let mut shop = Shop::with_item(BANANA, 2.0, "kpl");
    let cart = shop.tool(CartServer::new().get_cart(store_arg(STORE))).unwrap();
    assert!(!cart.items[0].price_is_approximate);
}

#[test]
fn anonymous_session_reports_no_account() {
    let mut shop = Shop::default();
    let server = CartServer::new();
    let cart = shop.tool(server.get_cart(store_arg(STORE))).unwrap();
    assert_eq!(cart.account, None);

    let status = shop.auth_status(&server, Some(STORE)).unwrap();
    assert!(!status.logged_in);
    assert_eq!(status.account, None);
    assert!(status.detail.contains("login"), "{}", status.detail);
}

#[test]
fn signed_in_session_reports_the_account() {
    let mut shop = Shop {
        signed_in: Some(("Niko", "Savola", "niko@example.com")),
        ..Shop::default()
    };
    let server = CartServer::new();
    let status = shop.auth_status(&server, Some(STORE)).unwrap();
    assert!(status.logged_in);
    assert_eq!(status.account.as_deref(), Some("Niko Savola <niko@example.com>"));
    assert_eq!(status.detail, "Signed in as Niko Savola <niko@example.com>.");

    let cart = shop.tool(server.get_cart(store_arg(STORE))).unwrap();
    assert_eq!(cart.account.as_deref(), Some("Niko Savola <niko@example.com>"));
}

#[test]
fn add_to_cart_sends_one_add_item_event() {
    let mut shop = Shop::default();
    let arg = AddArg {
        quantity: Some(amount(3.0)),
        ..add(BANANA)
    };
    let cart = shop.tool(CartServer::new().add_to_cart(arg)).unwrap();
    assert_eq!(cart.items[0].amount.value, double(3.0));

    let mutations = shop.mutations();
    assert_eq!(mutations.len(), 1, "{mutations:?}");
    // Always an array, even for a single change.
    assert!(mutations[0].is_array(), "{}", mutations[0]);
    assert_eq!(
        mutations[0][0],
        json(
            r#"{"type": "ADD-ITEM", "item": {"ean": "2000818700008", "allowSubstitutes": true,
                "amountInfo": {"amount": 3.0, "unit": "kpl"}}}"#
        )
    );
}

#[test]
fn local_store_id_is_omitted_unless_given() {
    let mut shop = Shop::default();
    shop.tool(CartServer::new().add_to_cart(add(BANANA))).unwrap();
    let item = shop.mutations()[0][0]["item"].clone();
    assert!(item.as_object().unwrap().get("localStoreId").is_none(), "{item}");
    // One piece, unless told otherwise.
    assert_eq!(item["amountInfo"], json(r#"{"amount": 1.0, "unit": "kpl"}"#));

    let mut shop = Shop::default();
    let arg = AddArg {
        local_store_id: Some("N137".to_string()),
        allow_substitutes: Some(false),
        unit: Some("kg".to_string()),
        ..add(BANANA)
    };
    shop.tool(CartServer::new().add_to_cart(arg)).unwrap();
    let item = shop.mutations()[0][0]["item"].clone();
    assert_eq!(item["localStoreId"], "N137");
    assert_eq!(item["allowSubstitutes"], false);
    assert_eq!(item["amountInfo"]["unit"], "kg");
}

#[test]
fn update_cart_item_keeps_the_items_existing_unit() {
    let mut shop = Shop::with_item(LOOSE_MINCE, 1.5, "kg");
    let cart = shop
        .tool(CartServer::new().update_cart_item(update(LOOSE_MINCE, 2.0)))
        .unwrap();
    assert_eq!(
        shop.mutations()[0][0],
        json(
            r#"{"type": "SET-ITEM-AMOUNT", "itemId": "2000111100001",
                "value": {"amount": 2.0, "unit": "kg"}}"#
        )
    );
    assert_eq!(cart.items[0].unit, "kg");
}

#[test]
fn update_cart_item_honours_an_explicit_unit() {
    let mut shop = Shop::with_item(LOOSE_MINCE, 1.5, "kg");
    let arg = UpdateArg {
        unit: Some("kpl".to_string()),
        ..update(LOOSE_MINCE, 4.0)
    };
    shop.tool(CartServer::new().update_cart_item(arg)).unwrap();
    assert_eq!(shop.mutations()[0][0]["value"]["unit"], "kpl");
}

#[test]
fn quantity_zero_removes_and_clear_empties() {
    let mut shop = Shop::with_item(BANANA, 2.0, "kpl");
    let server = CartServer::new();
    let cart = shop.tool(server.update_cart_item(update(BANANA, 0.0))).unwrap();
    assert!(cart.items.is_empty());

    shop.tool(server.add_to_cart(add(BANANA))).unwrap();
    let cart = shop.tool(server.clear_cart(store_arg(STORE))).unwrap();
    assert!(cart.items.is_empty());
    assert_eq!(f64::from_bits(cart.totals.grand_total.bits), 0.0);
    assert!(shop.events().contains(&"CLEAR-ITEMS".to_string()), "{:?}", shop.events());
}

#[test]
fn remove_from_cart_sends_remove_item() {
    let mut shop = Shop::with_item(BANANA, 1.0, "kpl");
    let cart = shop.tool(CartServer::new().remove_from_cart(remove(BANANA))).unwrap();
    assert!(cart.items.is_empty());
    assert_eq!(shop.events(), ["REMOVE-ITEM"]);
}

#[test]
fn non_positive_add_quantity_is_refused_without_a_request() {
    for quantity in [0.0, -5.0, f64::NAN] {
        let mut shop = Shop::default();
        let arg = AddArg {
            quantity: Some(amount(quantity)),
            ..add(BANANA)
        };
        let err = shop.tool(CartServer::new().add_to_cart(arg)).unwrap_err();
        assert!(err.contains("greater than 0"), "{err}");
        assert!(err.contains(&format!("(got {quantity})")), "{err}");
        assert!(shop.calls.is_empty(), "{:?}", shop.calls);
    }
}

#[test]
fn negative_update_quantity_is_refused() {
    let mut shop = Shop::with_item(BANANA, 2.0, "kpl");
    let err = shop
        .tool(CartServer::new().update_cart_item(update(BANANA, -3.0)))
        .unwrap_err();
    assert!(err.contains("cannot be negative"), "{err}");
    assert!(err.contains("Use 0 to remove"), "{err}");
    assert!(shop.mutations().is_empty());
    assert_eq!(shop.lines[0].amount, 2.0);
}

#[test]
fn unknown_ean_is_rejected_and_rolled_back() {
    let mut shop = Shop::default();
    let err = shop.tool(CartServer::new().add_to_cart(add(PHANTOM))).unwrap_err();
    assert!(err.contains("no product with EAN"), "{err}");
    assert!(err.contains("nothing was added"), "{err}");
    assert_eq!(shop.events(), ["ADD-ITEM", "REMOVE-ITEM"]);
    assert!(shop.lines.is_empty());
    assert_eq!(shop.calls.len(), 3);
}

#[test]
fn a_rollback_that_silently_did_nothing_is_reported_not_claimed() {
    let mut shop = Shop {
        deaf_to: vec!["REMOVE-ITEM"],
        ..Shop::default()
    };
    let err = shop.tool(CartServer::new().add_to_cart(add(PHANTOM))).unwrap_err();
    assert!(err.contains("no product with EAN"), "{err}");
    assert!(!err.contains("nothing was added"), "{err}");
    assert!(err.contains("could not be removed"), "{err}");
    assert!(err.contains(&format!("item_id={PHANTOM}.")), "{err}");
    assert_eq!(shop.events(), ["ADD-ITEM", "REMOVE-ITEM"]);
    assert_eq!(shop.lines.len(), 1);
}

#[test]
fn an_add_that_silently_did_nothing_is_not_a_success() {
    let mut shop = Shop {
        deaf_to: vec!["ADD-ITEM"],
        ..Shop::default()
    };
    let err = shop.tool(CartServer::new().add_to_cart(add(BANANA))).unwrap_err();
    assert!(err.contains("accepted the add for EAN 2000818700008"), "{err}");
    assert!(err.contains("not in the cart it returned"), "{err}");
    assert_eq!(shop.events(), ["ADD-ITEM"]);
}

#[test]
fn a_set_amount_that_silently_did_nothing_is_not_a_success() {
    let mut shop = Shop {
        deaf_to: vec!["SET-ITEM-AMOUNT"],
        ..Shop::with_item(BANANA, 2.0, "kpl")
    };
    let err = shop
        .tool(CartServer::new().update_cart_item(update(BANANA, 5.0)))
        .unwrap_err();
    assert!(err.contains(BANANA), "{err}");
    assert!(err.contains('5'), "{err}");
    assert_eq!(shop.events(), ["SET-ITEM-AMOUNT"]);
}

#[test]
fn a_remove_that_silently_did_nothing_is_not_a_success() {
    let mut shop = Shop {
        deaf_to: vec!["REMOVE-ITEM"],
        ..Shop::with_item(BANANA, 1.0, "kpl")
    };
    let err = shop
        .tool(CartServer::new().remove_from_cart(remove(BANANA)))
        .unwrap_err();
    assert!(err.contains(BANANA), "{err}");
    assert!(err.contains("still in the cart"), "{err}");
    assert_eq!(shop.events(), ["REMOVE-ITEM"]);
}

#[test]
fn an_empty_ean_is_refused_before_any_request() {
    for ean in ["", " \t"] {
        let mut shop = Shop::default();
        let err = shop.tool(CartServer::new().add_to_cart(add(ean))).unwrap_err();
        assert!(err.contains("must not be empty"), "{err}");
        assert!(shop.calls.is_empty());
    }
}

#[test]
fn unknown_item_id_fails_loudly_and_lists_the_valid_ones() {
    let mut shop = Shop::with_item(BANANA, 1.0, "kpl");
    let server = CartServer::new();
    for step in [
        server.remove_from_cart(remove("not-a-real-item")),
        server.update_cart_item(update("not-a-real-item", 1.0)),
    ] {
        let err = shop.tool(step).unwrap_err();
        assert!(err.contains("not-a-real-item"), "{err}");
        assert!(err.contains(BANANA), "{err}");
    }
    assert!(shop.mutations().is_empty());

    let mut shop = Shop::default();
    let err = shop.tool(server.remove_from_cart(remove(BANANA))).unwrap_err();
    assert!(err.contains("cart is empty"), "{err}");
}

#[test]
fn expired_session_tells_the_caller_to_log_in_again() {
    let mut shop = Shop::failing("auth");
    let server = CartServer::new();
    let err = shop.tool(server.get_cart(store_arg(STORE))).unwrap_err();
    assert!(err.contains("expired"), "{err}");
    assert!(err.contains("login"), "{err}");
    assert!(err.contains("left untouched"), "{err}");

    let status = shop.auth_status(&server, Some(STORE)).unwrap();
    assert!(!status.logged_in);
    assert!(status.detail.contains("expired"));
}

#[test]
fn cloudflare_block_is_reported_as_itself() {
    let mut shop = Shop::failing("cloudflare");
    let server = CartServer::new();
    let err = shop.tool(server.get_cart(store_arg(STORE))).unwrap_err();
    assert!(err.contains("Cloudflare"), "{err}");
    assert!(!err.contains("login"), "{err}");
    let err = shop.auth_status(&server, None).unwrap_err();
    assert!(err.contains("Cloudflare"), "{err}");
}

#[test]
fn invalid_store_id_is_named_back_to_the_caller() {
    let mut shop = Shop::failing("invalid-store");
    let err = shop.tool(CartServer::new().get_cart(store_arg("ZZZZ9"))).unwrap_err();
    assert!(err.contains("ZZZZ9"), "{err}");
    assert!(!err.contains("undefined"), "{err}");
}

#[test]
fn cart_logic_does_not_retry_on_top_of_the_session() {
    let server = CartServer::new();
    for kind in ["auth", "cloudflare", "invalid-store"] {
        for step in [
            server.get_cart(store_arg(STORE)),
            server.add_to_cart(add(BANANA)),
            server.update_cart_item(update(BANANA, 1.0)),
            server.remove_from_cart(remove(BANANA)),
            server.clear_cart(store_arg(STORE)),
        ] {
            let mut shop = Shop::failing(kind);
            shop.tool(step).unwrap_err();
            assert_eq!(shop.calls.len(), 1, "{kind}: {:?}", shop.calls);
        }
    }
}

#[test]
fn auth_status_works_without_a_store_id() {
    let mut shop = Shop::default();
    let status = shop.auth_status(&CartServer::new(), None).unwrap();
    assert!(!status.logged_in);
    assert_eq!(shop.calls[0].2["storeId"], "N137");
}

#[test]
fn set_default_store_makes_store_id_optional_on_other_tools() {
    let mut shop = Shop::with_item(BANANA, 2.0, "kpl");
    let mut server = CartServer::new();
    let status = server.set_default_store(SetDefaultStoreArg {
        store_id: STORE.to_string(),
    });
    assert_eq!(status.default_store, STORE);

    let nowhere = || StoreArg { store_id: None };
    let cart = shop.tool(server.get_cart(nowhere())).unwrap();
    assert_eq!(cart.store.id, STORE);
    let somewhere = AddArg {
        store_id: None,
        ..add(BANANA)
    };
    shop.tool(server.add_to_cart(somewhere)).unwrap();
    let changed = UpdateArg {
        store_id: None,
        ..update(BANANA, 3.0)
    };
    shop.tool(server.update_cart_item(changed)).unwrap();
    let removed = RemoveArg {
        store_id: None,
        item_id: BANANA.to_string(),
    };
    shop.tool(server.remove_from_cart(removed)).unwrap();
    shop.tool(server.add_to_cart(add(BANANA))).unwrap();
    shop.tool(server.clear_cart(nowhere())).unwrap();
    assert_eq!(shop.mutations().len(), 5);
    for (method, _, body) in &shop.calls {
        if method == "POST" {
            assert_eq!(body["storeId"], STORE);
        }
    }
}

#[test]
fn explicit_store_id_overrides_the_default() {
    let mut shop = Shop::default();
    let mut server = CartServer::new();
    server.set_default_store(SetDefaultStoreArg {
        store_id: "DEFAULT".to_string(),
    });
    shop.tool(server.get_cart(store_arg(STORE))).unwrap();
    assert_eq!(shop.calls[0].2["storeId"], STORE);
    assert_ne!(shop.calls[0].2["storeId"], "DEFAULT");
}

#[test]
fn auth_status_uses_the_default_store_when_set() {
    let mut shop = Shop::default();
    let mut server = CartServer::new();
    server.set_default_store(SetDefaultStoreArg {
        store_id: "K815".to_string(),
    });
    shop.auth_status(&server, None).unwrap();
    assert_eq!(shop.calls[0].2["storeId"], "K815");
}

#[test]
fn omitting_store_id_without_a_default_is_a_tool_error() {
    let mut shop = Shop::default();
    let err = shop
        .tool(CartServer::new().get_cart(StoreArg { store_id: None }))
        .unwrap_err();
    assert!(err.contains("set_default_store"), "{err}");
    assert!(shop.calls.is_empty());
}

#[test]
fn set_default_store_persists_to_file() {
    let mut first = CartServer::new();
    let written = first
        .set_default_store(SetDefaultStoreArg {
            store_id: STORE.to_string(),
        })
        .default_store;
    assert_eq!(written.trim(), STORE);

    let second = CartServer::new().with_default_store(Some(&written), Some("K815"));
    let mut shop = Shop::default();
    let cart = shop.tool(second.get_cart(StoreArg { store_id: None })).unwrap();
    assert_eq!(cart.store.id, STORE);
    assert_eq!(shop.calls.len(), 1);
    assert_eq!(shop.calls[0].2["storeId"], STORE);
}

#[test]
fn missing_file_does_not_hide_the_no_default_error() {
    let mut shop = Shop::default();
    for server in [
        CartServer::new().with_default_store(None, None),
        CartServer::new().with_default_store(Some(" \n"), Some("")),
    ] {
        let err = shop.tool(server.get_cart(StoreArg { store_id: None })).unwrap_err();
        assert!(err.contains("set_default_store"), "{err}");
        assert!(shop.calls.is_empty());
    }
}

#[test]
fn the_kept_store_is_read_without_its_line_break() {
    assert_eq!(read_default_store(Some("N137\n")).as_deref(), Some("N137"));
    assert_eq!(read_default_store(Some("")), None);
    assert_eq!(read_default_store(None), None);
    let server = CartServer::new().with_default_store(None, Some(" K815 "));
    assert_eq!(server.default_store.as_deref(), Some("K815"));
}

#[test]
fn start_login_passes_an_explicit_port_through() {
    assert_eq!(StartLoginArg { port: Some(9333) }.debug_port(), 9333);
    assert_eq!(StartLoginArg { port: None }.debug_port(), 9222);
}

#[test]
fn the_login_tools_explain_themselves_when_unavailable() {
    let err = login_unavailable().0;
    assert!(err.contains("k-ruoka-mcp login"), "{err}");
}

#[test]
fn failures_reach_the_model_rather_than_the_transport() {
    let arg = AddArg {
        quantity: Some(amount(0.0)),
        ..add(BANANA)
    };
    let text = Shop::default().tool(CartServer::new().add_to_cart(arg)).unwrap_err();
    assert!(text.contains("greater than 0"), "{text}");
    // Must not claim K-Ruoka refused; it was never asked.
    assert!(!text.contains("K-Ruoka API error"), "{text}");

    let text = to_tool_failure(ApiError::AuthExpired).0;
    assert!(text.contains("login"), "{text}");
    let text = to_tool_failure(ApiError::Api { status: 404, message: "nope".into() }).0;
    assert_eq!(text, "K-Ruoka API error (status 404): nope");
}
