use k_ruoka_mcp::amount::{Amount, Double};
use k_ruoka_mcp::types::{
    AmountInfo, Basket, BasketEvent, BasketItem, CartView, LocalizedName, NewItem, PriceSummary,
    Pricing, ProductDetails, Store, UserInfo, events_json,
};
use serde_json::Value;

fn double(x: f64) -> Double {
    Double { bits: x.to_bits() }
}

fn amount(x: f64) -> Amount {
    Amount {
        value: double(x),
        shown: x.to_string(),
        json: Value::from(x).to_string(),
    }
}

fn record(members: Vec<(&str, Value)>) -> Value {
    Value::Object(
        members
            .into_iter()
            .map(|(key, value)| (key.to_string(), value))
            .collect(),
    )
}

fn parsed(json: &str) -> Value {
    serde_json::from_str(json).unwrap()
}

fn text(v: &Value) -> String {
    v.as_str().unwrap_or_default().to_string()
}

fn optional_text(v: &Value) -> Option<String> {
    v.as_str().map(str::to_string)
}

fn basket_of(v: &Value) -> Basket {
    let items = v["items"].as_array().unwrap();
    Basket {
        id: text(&v["id"]),
        items: items
            .iter()
            .map(|i| BasketItem {
                id: text(&i["id"]),
                ean: text(&i["ean"]),
                name: LocalizedName {
                    finnish: optional_text(&i["name"]["finnish"]),
                    english: optional_text(&i["name"]["english"]),
                    swedish: optional_text(&i["name"]["swedish"]),
                },
                amount_info: AmountInfo {
                    amount: amount(i["amountInfo"]["amount"].as_f64().unwrap()),
                    unit: text(&i["amountInfo"]["unit"]),
                },
                pricing: i["pricing"].as_object().map(|p| Pricing {
                    price: p["price"].as_f64().map(double),
                    unit: optional_text(&p["unit"]),
                    is_approximate: p["isApproximate"].as_bool().unwrap(),
                }),
                allow_substitutes: i["allowSubstitutes"].as_bool().unwrap(),
                product_details: ProductDetails {
                    attributes: i["productDetails"].get("attributes").cloned(),
                },
            })
            .collect(),
        price_summary: PriceSummary {
            items_sub_total: double(v["priceSummary"]["itemsSubTotal"].as_f64().unwrap()),
            grand_total: double(v["priceSummary"]["grandTotal"].as_f64().unwrap()),
        },
        store: v.get("store").map(|s| Store {
            id: text(&s["id"]),
            name: text(&s["name"]),
        }),
        user_info: UserInfo {
            first_name: text(&v["userInfo"]["firstName"]),
            last_name: text(&v["userInfo"]["lastName"]),
            email: text(&v["userInfo"]["email"]),
        },
    }
}

fn user(first_name: &str, last_name: &str, email: &str) -> UserInfo {
    UserInfo {
        first_name: first_name.to_string(),
        last_name: last_name.to_string(),
        email: email.to_string(),
    }
}

const LIVE: &str = r#"{
  "schemaVersion": 5,
  "id": "c0fa67a6-4b56-4dc6-9a7e-506c2b29b7cf",
  "name": "Ostoskori",
  "userInfo": {"firstName":"","lastName":"","email":"","phoneNumber":""},
  "items": [{
    "allowSubstitutes": true,
    "amountInfo": {"amount": 1, "unit": "kpl"},
    "ean": "2000818700008",
    "id": "2000818700008",
    "name": {"english":"Pirkka banana","finnish":"Pirkka banaani","swedish":"Pirkka banan"},
    "pricing": {"isApproximate": true, "price": 0.3, "unit": "kg"},
    "productDetails": {"attributes": {"ean": "2000818700008"}}
  }],
  "priceSummary": {"grandTotal": 0.3, "itemsSubTotal": 0.3,
                   "plussaSavings": {"total": 0, "type": "POTENTIAL"}},
  "store": {"id": "N137", "name": "K-Citymarket Helsinki Ruoholahti"}
}"#;

#[test]
fn parses_a_live_basket_into_a_view() {
    let view: CartView = basket_of(&parsed(LIVE)).into();
    assert_eq!(view.store.id, "N137");
    assert_eq!(view.totals.grand_total, double(0.3));
    assert_eq!(view.items.len(), 1);

    let item = &view.items[0];
    assert_eq!(item.item_id, "2000818700008");
    assert_eq!(item.name, "Pirkka banaani");
    assert_eq!(item.amount.value, double(1.0));
    assert_eq!(item.unit, "kpl");
    assert!(item.price_is_approximate);
    assert_eq!(item.price, Some(double(0.3)));
    assert_eq!(item.price_unit.as_deref(), Some("kg"));
}

#[test]
fn anonymous_basket_reports_no_account() {
    let view: CartView = basket_of(&parsed(LIVE)).into();
    assert_eq!(view.account, None);
}

#[test]
fn logged_in_basket_reports_the_account() {
    let json = LIVE.replace(
        r#""firstName":"","lastName":"","email":""#,
        r#""firstName":"Niko","lastName":"Savola","email":"n@example.com"#,
    );
    let view: CartView = basket_of(&parsed(&json)).into();
    assert_eq!(view.account.as_deref(), Some("Niko Savola <n@example.com>"));
}

#[test]
fn events_serialise_to_the_shapes_the_bundle_expects() {
    let add = BasketEvent::AddItem {
        item: NewItem {
            ean: "2000818700008".into(),
            local_store_id: None,
            allow_substitutes: true,
            amount_info: AmountInfo {
                amount: amount(2.0),
                unit: "kpl".into(),
            },
        },
    };
    assert_eq!(
        parsed(&add.json()),
        record(vec![
            ("type", Value::from("ADD-ITEM")),
            (
                "item",
                record(vec![
                    ("ean", Value::from("2000818700008")),
                    ("allowSubstitutes", Value::from(true)),
                    (
                        "amountInfo",
                        record(vec![("amount", Value::from(2.0)), ("unit", Value::from("kpl"))])
                    ),
                ])
            ),
        ])
    );

    let set = BasketEvent::SetItemAmount {
        item_id: "x".into(),
        value: AmountInfo {
            amount: amount(3.0),
            unit: "kpl".into(),
        },
    };
    assert_eq!(
        parsed(&set.json()),
        record(vec![
            ("type", Value::from("SET-ITEM-AMOUNT")),
            ("itemId", Value::from("x")),
            (
                "value",
                record(vec![("amount", Value::from(3.0)), ("unit", Value::from("kpl"))])
            ),
        ])
    );

    let remove = BasketEvent::RemoveItem { item_id: "x".into() };
    assert_eq!(
        parsed(&remove.json()),
        record(vec![("type", Value::from("REMOVE-ITEM")), ("itemId", Value::from("x"))])
    );
    assert_eq!(
        parsed(&BasketEvent::ClearItems.json()),
        record(vec![("type", Value::from("CLEAR-ITEMS"))])
    );
}

#[test]
fn local_store_id_is_omitted_when_absent() {
    let item = NewItem {
        ean: "1".into(),
        local_store_id: None,
        allow_substitutes: false,
        amount_info: AmountInfo::default(),
    };
    let v = parsed(&item.json());
    assert!(!v.as_object().unwrap().contains_key("localStoreId"));

    let item = NewItem {
        local_store_id: Some("N137".into()),
        ..item
    };
    assert_eq!(parsed(&item.json())["localStoreId"], "N137");
}

#[test]
fn the_json_of_an_event_is_what_serde_json_writes() {
    let events = vec![
        BasketEvent::AddItem {
            item: NewItem {
                ean: "a\"\\\n\u{1}ö".into(),
                local_store_id: Some("N\"137".into()),
                allow_substitutes: false,
                amount_info: AmountInfo {
                    amount: amount(0.5),
                    unit: "kg".into(),
                },
            },
        },
        BasketEvent::SetItemAmount {
            item_id: "x".into(),
            value: AmountInfo {
                amount: amount(1e21),
                unit: "kpl".into(),
            },
        },
        BasketEvent::ClearItems,
    ];
    let json = events_json(&events);
    assert_eq!(parsed(&json).to_string(), json);
    assert_eq!(
        json,
        r#"[{"item":{"allowSubstitutes":false,"amountInfo":{"amount":0.5,"unit":"kg"},"ean":"a\"\\\n\u0001ö","localStoreId":"N\"137"},"type":"ADD-ITEM"},{"itemId":"x","type":"SET-ITEM-AMOUNT","value":{"amount":1e+21,"unit":"kpl"}},{"type":"CLEAR-ITEMS"}]"#
            .replace("1e+21", &Value::from(1e21).to_string())
    );
}

#[test]
fn an_infinite_amount_is_null_on_the_wire() {
    let info = AmountInfo {
        amount: amount(f64::INFINITY),
        unit: "kpl".into(),
    };
    assert_eq!(info.json(), r#"{"amount":null,"unit":"kpl"}"#);
}

#[test]
fn an_amount_defaults_to_no_pieces() {
    let info = AmountInfo::default();
    assert_eq!(info.amount.value, double(0.0));
    assert_eq!(info.amount.shown, "0");
    assert_eq!(info.amount.json, "0.0");
    assert_eq!(info.unit, "kpl");
    assert_eq!(info.json(), r#"{"amount":0.0,"unit":"kpl"}"#);
}

#[test]
fn the_best_name_is_finnish_then_english_then_swedish() {
    let name = |finnish: Option<&str>, english: Option<&str>, swedish: Option<&str>| LocalizedName {
        finnish: finnish.map(str::to_string),
        english: english.map(str::to_string),
        swedish: swedish.map(str::to_string),
    };
    assert_eq!(name(Some("maito"), Some("milk"), Some("mjölk")).best(), "maito");
    assert_eq!(name(None, Some("milk"), Some("mjölk")).best(), "milk");
    assert_eq!(name(None, None, Some("mjölk")).best(), "mjölk");
    assert_eq!(name(Some(""), Some("milk"), None).best(), "");
    assert_eq!(name(None, None, None).best(), "");
}

#[test]
fn an_account_is_shown_by_what_is_known_of_it() {
    assert_eq!(user("", "", "").display(), None);
    assert_eq!(user("Niko", "Savola", "").display().as_deref(), Some("Niko Savola"));
    assert_eq!(user("Niko", "", "").display().as_deref(), Some("Niko"));
    assert_eq!(user("", "Savola", "n@example.com").display().as_deref(), Some("Savola <n@example.com>"));
    assert_eq!(user("", "", "n@example.com").display().as_deref(), Some("n@example.com"));
    assert_eq!(user(" ", "\u{a0}", "n@example.com").display().as_deref(), Some("n@example.com"));
    assert_eq!(user(" ", "", "").display().as_deref(), Some(""));
}

#[test]
fn a_view_without_a_store_has_an_empty_one() {
    let mut basket = basket_of(&parsed(LIVE));
    basket.store = None;
    basket.items[0].pricing = None;
    let view: CartView = basket.into();
    assert_eq!(view.store.id, "");
    assert_eq!(view.store.name, "");
    assert_eq!(view.items[0].price, None);
    assert_eq!(view.items[0].price_unit, None);
    assert!(!view.items[0].price_is_approximate);
}
