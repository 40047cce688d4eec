//! The shapes of the basket API, and what the tools return of them.

use crate::amount::{Amount, Double};
use crate::{amount, json, text};
use vstd::prelude::*;

verus! {

/// The basket, as `/kr-api/basket/active` and every successful
/// `PATCH /kr-api/basket/by-id/{id}` answer it.
#[derive(Debug)]
pub struct Basket {
    pub id: String,
    pub items: Vec<BasketItem>,
    pub price_summary: PriceSummary,
    pub store: Option<Store>,
    pub user_info: UserInfo,
}

#[derive(Debug)]
pub struct BasketItem {
    /// The basket's own item id, and what `SET-ITEM-AMOUNT` and `REMOVE-ITEM` take.
    ///
    /// For ordinary products it equals the EAN, but the shop keys items by
    /// `(localStoreId, ean)`, so that equality is not something to depend on.
    pub id: String,
    pub ean: String,
    pub name: LocalizedName,
    pub amount_info: AmountInfo,
    pub pricing: Option<Pricing>,
    pub allow_substitutes: bool,
    pub product_details: ProductDetails,
}

impl BasketItem {
    /// K-Ruoka has a product record for this item's EAN.
    pub open spec fn known(&self) -> bool {
        self.product_details.attributes is Some
    }

    /// Whether K-Ruoka has a product record for this item's EAN.
    ///
    /// `ADD-ITEM` accepts any EAN and puts an "Unknown product" in the basket for one it
    /// does not recognise. What tells the two apart is `productDetails.attributes`, not
    /// `pricing`: a product that is out of stock still has attributes.
    pub fn is_known_product(&self) -> (r: bool)
        ensures
            r == self.known(),
            r == (self.product_details.attributes is Some),
    {
        self.product_details.attributes.is_some()
    }
}

/// The one key of the product details that matters here.
#[derive(Debug)]
pub struct ProductDetails {
    pub attributes: Option<serde_json::Value>,
}

#[derive(Debug)]
pub struct LocalizedName {
    pub finnish: Option<String>,
    pub english: Option<String>,
    pub swedish: Option<String>,
}

impl LocalizedName {
    /// The Finnish name, failing that the English, failing that the Swedish, failing that
    /// nothing.
    pub open spec fn best_name(&self) -> Seq<char> {
        match (self.finnish, self.english, self.swedish) {
            (Some(s), _, _) => s@,
            (None, Some(s), _) => s@,
            (None, None, Some(s)) => s@,
            (None, None, None) => Seq::empty(),
        }
    }

    /// The name to show: Finnish before English before Swedish.
    pub fn best(&self) -> (r: String)
        ensures
            r@ == self.best_name(),
            self.finnish matches Some(s) ==> r@ == s@,
            self.finnish is None ==> (self.english matches Some(s) ==> r@ == s@),
            self.finnish is None && self.english is None ==> (self.swedish matches Some(s) ==> r@
                == s@),
            self.finnish is None && self.english is None && self.swedish is None ==> r@.len() == 0,
    {
        if let Some(s) = &self.finnish {
            return s.clone();
        }
        if let Some(s) = &self.english {
            return s.clone();
        }
        if let Some(s) = &self.swedish {
            return s.clone();
        }
        String::new()
    }
}

/// K-Ruoka amounts always carry a unit. `kpl` ("pieces") is by far the common one, also
/// for goods that are priced by weight.
pub const DEFAULT_UNIT: &'static str = "kpl";

#[derive(Debug)]
pub struct AmountInfo {
    pub amount: Amount,
    pub unit: String,
}

impl Default for AmountInfo {
    fn default() -> (r: Self)
        ensures
            r.amount.value.bits == 0,
            r.amount.value.is_finite(),
            r.amount.value.value() == amount::whole(0),
            r.amount.shown@ == "0"@,
            r.amount.json@ == "0.0"@,
            r.unit@ == DEFAULT_UNIT@,
    {
        AmountInfo { amount: Amount::none(), unit: DEFAULT_UNIT.to_owned() }
    }
}

#[derive(Debug)]
pub struct Pricing {
    pub price: Option<Double>,
    pub unit: Option<String>,
    /// True for goods priced by weight, where the charge is settled at picking.
    pub is_approximate: bool,
}

#[derive(Debug, Clone, Copy, PartialEq, Eq, Structural)]
pub struct PriceSummary {
    pub items_sub_total: Double,
    pub grand_total: Double,
}

#[derive(Debug)]
pub struct Store {
    pub id: String,
    pub name: String,
}

impl Default for Store {
    fn default() -> (r: Self)
        ensures
            r.id@ == Seq::<char>::empty(),
            r.name@ == Seq::<char>::empty(),
    {
        Store { id: String::new(), name: String::new() }
    }
}

/// Empty texts throughout on an anonymous session; filled in once signed in. An anonymous
/// caller gets a perfectly valid basket, so this is the only signal of whose it is.
#[derive(Debug)]
pub struct UserInfo {
    pub first_name: String,
    pub last_name: String,
    pub email: String,
}

impl UserInfo {
    /// No field says anything: the session is anonymous.
    pub open spec fn anonymous(&self) -> bool {
        self.first_name@.len() == 0 && self.last_name@.len() == 0 && self.email@.len() == 0
    }

    /// The first and the last name with a space between, without white space around.
    pub open spec fn full_name(&self) -> Seq<char> {
        text::trimmed(self.first_name@ + " "@ + self.last_name@)
    }

    /// How the signed-in account is shown; nothing on an anonymous session.
    pub open spec fn account(&self) -> Option<Seq<char>> {
        if self.anonymous() {
            None
        } else if self.full_name().len() == 0 {
            Some(self.email@)
        } else if self.email@.len() == 0 {
            Some(self.full_name())
        } else {
            Some(self.full_name() + " <"@ + self.email@ + ">"@)
        }
    }

    /// The signed-in account, or `None` when the session is anonymous.
    pub fn display(&self) -> (r: Option<String>)
        ensures
            r is None == self.anonymous(),
            r is None == (self.first_name@.len() == 0 && self.last_name@.len() == 0
                && self.email@.len() == 0),
            r is Some == self.account() is Some,
            r matches Some(s) ==> self.account() == Some(s@),
    {
        if self.email.as_str().is_empty() && self.first_name.as_str().is_empty()
            && self.last_name.as_str().is_empty() {
            return None;
        }
        let mut both = self.first_name.clone();
        both.append(" ");
        both.append(self.last_name.as_str());
        let name = text::trim(both.as_str());
        if name.is_empty() {
            return Some(self.email.clone());
        }
        let mut shown = name.to_owned();
        if !self.email.as_str().is_empty() {
            shown.append(" <");
            shown.append(self.email.as_str());
            shown.append(">");
        }
        Some(shown)
    }
}

/// A cart mutation. `PATCH /kr-api/basket/by-id/{id}` always takes an array of these,
/// even for a single change. The names on the wire are the shop's own.
#[derive(Debug)]
pub enum BasketEvent {
    AddItem { item: NewItem },
    SetItemAmount { item_id: String, value: AmountInfo },
    RemoveItem { item_id: String },
    ClearItems,
}

#[derive(Debug)]
pub struct NewItem {
    pub ean: String,
    /// Only set for store-local products; omitted entirely otherwise.
    pub local_store_id: Option<String>,
    pub allow_substitutes: bool,
    pub amount_info: AmountInfo,
}

/// A truth value in JSON.
pub open spec fn bool_json(b: bool) -> Seq<char> {
    if b {
        "true"@
    } else {
        "false"@
    }
}

impl AmountInfo {
    /// The quantity in JSON; JSON has no infinities, and writes null for what is not a
    /// finite number.
    pub open spec fn amount_json(&self) -> Seq<char> {
        if self.amount.value.is_finite() {
            self.amount.json@
        } else {
            "null"@
        }
    }

    /// The quantity with its unit in JSON.
    pub open spec fn json_view(&self) -> Seq<char> {
        "{\"amount\":"@ + self.amount_json() + ",\"unit\":"@ + json::quoted(self.unit@) + "}"@
    }

    /// The quantity with its unit in JSON.
    pub fn json(&self) -> (r: String)
        ensures
            r@ == self.json_view(),
    {
        let mut r = "{\"amount\":".to_owned();
        if self.amount.value.finite() {
            r.append(self.amount.json.as_str());
        } else {
            r.append("null");
        }
        r.append(",\"unit\":");
        let unit = json::quote(self.unit.as_str());
        r.append(unit.as_str());
        r.append("}");
        r
    }
}

impl NewItem {
    /// The member for the local store, where there is one.
    pub open spec fn local_store_json(&self) -> Seq<char> {
        match self.local_store_id {
            Some(id) => ",\"localStoreId\":"@ + json::quoted(id@),
            None => Seq::empty(),
        }
    }

    /// The item in JSON.
    pub open spec fn json_view(&self) -> Seq<char> {
        "{\"allowSubstitutes\":"@ + bool_json(self.allow_substitutes) + ",\"amountInfo\":"@
            + self.amount_info.json_view() + ",\"ean\":"@ + json::quoted(self.ean@)
            + self.local_store_json() + "}"@
    }

    /// The item in JSON. `localStoreId` is absent, not null, where there is none.
    pub fn json(&self) -> (r: String)
        ensures
            r@ == self.json_view(),
    {
        let mut r = "{\"allowSubstitutes\":".to_owned();
        if self.allow_substitutes {
            r.append("true");
        } else {
            r.append("false");
        }
        r.append(",\"amountInfo\":");
        let info = self.amount_info.json();
        r.append(info.as_str());
        r.append(",\"ean\":");
        let ean = json::quote(self.ean.as_str());
        r.append(ean.as_str());
        match &self.local_store_id {
            Some(id) => {
                let mut member = ",\"localStoreId\":".to_owned();
                let id = json::quote(id.as_str());
                member.append(id.as_str());
                r.append(member.as_str());
            },
            None => {
                assert(r@ + self.local_store_json() =~= r@);
            },
        }
        r.append("}");
        r
    }
}

impl BasketEvent {
    /// The event in JSON.
    pub open spec fn json_view(&self) -> Seq<char> {
        match self {
            BasketEvent::AddItem { item } => "{\"item\":"@ + item.json_view()
                + ",\"type\":\"ADD-ITEM\"}"@,
            BasketEvent::SetItemAmount { item_id, value } => "{\"itemId\":"@ + json::quoted(
                item_id@,
            ) + ",\"type\":\"SET-ITEM-AMOUNT\",\"value\":"@ + value.json_view() + "}"@,
            BasketEvent::RemoveItem { item_id } => "{\"itemId\":"@ + json::quoted(item_id@)
                + ",\"type\":\"REMOVE-ITEM\"}"@,
            BasketEvent::ClearItems => "{\"type\":\"CLEAR-ITEMS\"}"@,
        }
    }

    /// The event in JSON.
    pub fn json(&self) -> (r: String)
        ensures
            r@ == self.json_view(),
    {
        match self {
            BasketEvent::AddItem { item } => {
                let mut r = "{\"item\":".to_owned();
                let item = item.json();
                r.append(item.as_str());
                r.append(",\"type\":\"ADD-ITEM\"}");
                r
            },
            BasketEvent::SetItemAmount { item_id, value } => {
                let mut r = "{\"itemId\":".to_owned();
                let id = json::quote(item_id.as_str());
                r.append(id.as_str());
                r.append(",\"type\":\"SET-ITEM-AMOUNT\",\"value\":");
                let value = value.json();
                r.append(value.as_str());
                r.append("}");
                r
            },
            BasketEvent::RemoveItem { item_id } => {
                let mut r = "{\"itemId\":".to_owned();
                let id = json::quote(item_id.as_str());
                r.append(id.as_str());
                r.append(",\"type\":\"REMOVE-ITEM\"}");
                r
            },
            BasketEvent::ClearItems => "{\"type\":\"CLEAR-ITEMS\"}".to_owned(),
        }
    }
}

/// The item id of an event stays a text of its JSON: it is read back as itself where it
/// stands.
pub proof fn item_id_stays_a_text(item_id: String, value: AmountInfo)
    ensures
        json::read_literal(
            BasketEvent::RemoveItem { item_id }.json_view().skip("{\"itemId\":"@.len() as int),
        ) == Some((item_id@, ",\"type\":\"REMOVE-ITEM\"}"@)),
        json::read_literal(
            BasketEvent::SetItemAmount { item_id, value }.json_view().skip(
                "{\"itemId\":"@.len() as int,
            ),
        ) == Some(
            (
                item_id@,
                ",\"type\":\"SET-ITEM-AMOUNT\",\"value\":"@ + value.json_view() + "}"@,
            ),
        ),
{
    let before = "{\"itemId\":"@;
    json::quoted_reads_back_inside(before, item_id@, ",\"type\":\"REMOVE-ITEM\"}"@);
    let rest = ",\"type\":\"SET-ITEM-AMOUNT\",\"value\":"@ + value.json_view() + "}"@;
    json::quoted_reads_back_inside(before, item_id@, rest);
    let id = json::quoted(item_id@);
    let middle = ",\"type\":\"SET-ITEM-AMOUNT\",\"value\":"@;
    let amount = value.json_view();
    let end = "}"@;
    assert(before + id + middle + amount + end =~= before + id + (middle + amount + end));
}

/// The unit of a quantity stays a text of its JSON.
pub proof fn unit_stays_a_text(info: AmountInfo)
    ensures
        json::read_literal(
            info.json_view().skip(
                ("{\"amount\":"@ + info.amount_json() + ",\"unit\":"@).len() as int,
            ),
        ) == Some((info.unit@, "}"@)),
{
    json::quoted_reads_back_inside(
        "{\"amount\":"@ + info.amount_json() + ",\"unit\":"@,
        info.unit@,
        "}"@,
    );
}

/// The EAN of a new item stays a text of its JSON.
pub proof fn ean_stays_a_text(item: NewItem)
    ensures
        ({
            let before = "{\"allowSubstitutes\":"@ + bool_json(item.allow_substitutes)
                + ",\"amountInfo\":"@ + item.amount_info.json_view() + ",\"ean\":"@;
            json::read_literal(item.json_view().skip(before.len() as int)) == Some(
                (item.ean@, item.local_store_json() + "}"@),
            )
        }),
{
    let before = "{\"allowSubstitutes\":"@ + bool_json(item.allow_substitutes)
        + ",\"amountInfo\":"@ + item.amount_info.json_view() + ",\"ean\":"@;
    let ean = json::quoted(item.ean@);
    let store = item.local_store_json();
    let end = "}"@;
    json::quoted_reads_back_inside(before, item.ean@, store + end);
    assert(before + ean + store + end =~= before + ean + (store + end));
}

/// The local store of a new item, where there is one, stays a text of its JSON.
pub proof fn local_store_id_stays_a_text(item: NewItem, id: String)
    requires
        item.local_store_id == Some(id),
    ensures
        ({
            let before = "{\"allowSubstitutes\":"@ + bool_json(item.allow_substitutes)
                + ",\"amountInfo\":"@ + item.amount_info.json_view() + ",\"ean\":"@
                + json::quoted(item.ean@) + ",\"localStoreId\":"@;
            json::read_literal(item.json_view().skip(before.len() as int)) == Some((id@, "}"@))
        }),
{
    let lead = "{\"allowSubstitutes\":"@ + bool_json(item.allow_substitutes)
        + ",\"amountInfo\":"@ + item.amount_info.json_view() + ",\"ean\":"@ + json::quoted(
        item.ean@,
    );
    let key = ",\"localStoreId\":"@;
    let store = json::quoted(id@);
    let end = "}"@;
    json::quoted_reads_back_inside(lead + key, id@, end);
    assert(lead + (key + store) + end =~= (lead + key) + store + end);
}

/// Each event in JSON.
pub open spec fn event_texts(events: Seq<BasketEvent>) -> Seq<Seq<char>> {
    Seq::new(events.len(), |i: int| events[i].json_view())
}

/// The events as one JSON array.
pub open spec fn events_view(events: Seq<BasketEvent>) -> Seq<char> {
    "["@ + text::joined(event_texts(events), ","@) + "]"@
}

/// The events as one JSON array.
pub fn events_json(events: &Vec<BasketEvent>) -> (r: String)
    ensures
        r@ == events_view(events@),
{
    let mut parts: Vec<String> = Vec::new();
    let mut i: usize = 0;
    while i < events.len()
        invariant
            i <= events@.len(),
            parts@.len() == i,
            forall|j: int| 0 <= j < i ==> (#[trigger] parts@[j])@ == events@[j].json_view(),
        decreases events@.len() - i,
    {
        parts.push(events[i].json());
        i = i + 1;
    }
    assert(text::views(parts@) =~= event_texts(events@));
    let mut r = "[".to_owned();
    let list = text::join(&parts, ",");
    r.append(list.as_str());
    r.append("]");
    r
}

/// The cart as the tools return it. The basket itself carries several KB of product
/// details per item, which would bury the few fields a caller needs.
#[derive(Debug)]
pub struct CartView {
    pub basket_id: String,
    pub store: Store,
    /// `None` when the session is anonymous: the cart is then a throwaway basket, not the
    /// account's.
    pub account: Option<String>,
    pub items: Vec<CartItemView>,
    pub totals: PriceSummary,
}

#[derive(Debug)]
pub struct CartItemView {
    /// What `update_cart_item` and `remove_from_cart` take as `item_id`.
    pub item_id: String,
    pub ean: String,
    pub name: String,
    pub amount: Amount,
    pub unit: String,
    pub price: Option<Double>,
    pub price_unit: Option<String>,
    /// Priced by weight: the final charge is settled when the order is picked.
    pub price_is_approximate: bool,
}

impl CartItemView {
    /// This shows `item`.
    pub open spec fn shows(&self, item: BasketItem) -> bool {
        &&& self.item_id == item.id
        &&& self.ean == item.ean
        &&& self.name@ == item.name.best_name()
        &&& self.amount == item.amount_info.amount
        &&& self.unit == item.amount_info.unit
        &&& self.price == (match item.pricing {
            Some(p) => p.price,
            None => None,
        })
        &&& self.price_unit == (match item.pricing {
            Some(p) => p.unit,
            None => None,
        })
        &&& self.price_is_approximate == (item.pricing is Some && item.pricing->0.is_approximate)
    }

    /// What a caller needs of `item`.
    pub fn of(item: BasketItem) -> (r: CartItemView)
        ensures
            r.shows(item),
            r.item_id == item.id,
            r.ean == item.ean,
            r.amount == item.amount_info.amount,
            r.unit == item.amount_info.unit,
    {
        let name = item.name.best();
        let (price, price_unit, price_is_approximate) = match item.pricing {
            Some(p) => (p.price, p.unit, p.is_approximate),
            None => (None, None, false),
        };
        CartItemView {
            item_id: item.id,
            ean: item.ean,
            name,
            amount: item.amount_info.amount,
            unit: item.amount_info.unit,
            price,
            price_unit,
            price_is_approximate,
        }
    }
}

impl CartView {
    /// This shows `b`: its id, its store or an empty one, its account, its totals, and its
    /// items in their order.
    pub open spec fn shows(&self, b: Basket) -> bool {
        &&& self.basket_id == b.id
        &&& match b.store {
            Some(store) => self.store == store,
            None => self.store.id@.len() == 0 && self.store.name@.len() == 0,
        }
        &&& self.account is Some == b.user_info.account() is Some
        &&& self.account matches Some(who) ==> b.user_info.account() == Some(who@)
        &&& self.totals == b.price_summary
        &&& self.items@.len() == b.items@.len()
        &&& forall|i: int|
            0 <= i < b.items@.len() ==> (#[trigger] self.items@[i]).shows(b.items@[i])
    }
}

impl From<Basket> for CartView {
    fn from(b: Basket) -> (r: CartView)
        ensures
            r.shows(b),
            r.basket_id == b.id,
            r.totals == b.price_summary,
            r.items@.len() == b.items@.len(),
            forall|i: int|
                0 <= i < b.items@.len() ==> {
                    &&& (#[trigger] r.items@[i]).item_id == b.items@[i].id
                    &&& r.items@[i].ean == b.items@[i].ean
                    &&& r.items@[i].amount == b.items@[i].amount_info.amount
                    &&& r.items@[i].unit == b.items@[i].amount_info.unit
                },
    {
        let account = b.user_info.display();
        let store = match b.store {
            Some(store) => store,
            None => Store::default(),
        };
        let mut items: Vec<CartItemView> = Vec::new();
        let ghost all = b.items@;
        for item in it: b.items
            invariant
                it.seq() == all,
                items@.len() == it.index(),
                forall|i: int| 0 <= i < it.index() ==> (#[trigger] items@[i]).shows(all[i]),
        {
            items.push(CartItemView::of(item));
        }
        CartView { basket_id: b.id, store, account, items, totals: b.price_summary }
    }
}

impl vstd::std_specs::convert::FromSpecImpl<Basket> for CartView {
    open spec fn obeys_from_spec() -> bool {
        false
    }

    open spec fn from_spec(b: Basket) -> CartView {
        arbitrary()
    }
}

/// A view of a basket leaves nothing out and adds nothing: it has as many items, and each
/// carries the id, EAN, amount, unit, price and name of the one at its place.
pub proof fn a_view_shows_every_item(view: CartView, b: Basket, i: int)
    requires
        view.shows(b),
    ensures
        view.basket_id == b.id,
        view.totals.items_sub_total == b.price_summary.items_sub_total,
        view.totals.grand_total == b.price_summary.grand_total,
        b.store matches Some(store) ==> view.store == store,
        b.store is None ==> view.store.id@.len() == 0 && view.store.name@.len() == 0,
        view.account is None <==> b.user_info.first_name@.len() == 0
            && b.user_info.last_name@.len() == 0 && b.user_info.email@.len() == 0,
        view.items@.len() == b.items@.len(),
        0 <= i < b.items@.len() ==> {
            let item = b.items@[i];
            let shown = view.items@[i];
            &&& shown.item_id == item.id
            &&& shown.ean == item.ean
            &&& shown.amount == item.amount_info.amount
            &&& shown.unit == item.amount_info.unit
            &&& item.pricing matches Some(p) ==> shown.price == p.price && shown.price_unit
                == p.unit && shown.price_is_approximate == p.is_approximate
            &&& item.pricing is None ==> shown.price is None && shown.price_unit is None
                && !shown.price_is_approximate
            &&& item.name.finnish matches Some(s) ==> shown.name@ == s@
        },
{
}

/// The names are tried in one order, and the first that is there is the best.
pub proof fn the_best_name_is_the_first_there(name: LocalizedName)
    ensures
        name.finnish matches Some(s) ==> name.best_name() == s@,
        name.finnish is None ==> (name.english matches Some(s) ==> name.best_name() == s@),
        name.finnish is None && name.english is None ==> (name.swedish matches Some(s)
            ==> name.best_name() == s@),
        name.finnish is None && name.english is None && name.swedish is None
            ==> name.best_name().len() == 0,
{
}

/// A product is known by its attributes, whatever its price.
pub proof fn products_are_known_by_their_attributes(item: BasketItem)
    ensures
        item.known() <==> item.product_details.attributes is Some,
{
}

/// There is an account exactly where any of its fields says anything, and it names its user:
/// by the address, and by each name that has no white space around it.
pub proof fn the_account_names_its_user(user: UserInfo)
    ensures
        user.account() is None <==> user.first_name@.len() == 0 && user.last_name@.len() == 0
            && user.email@.len() == 0,
        user.account() matches Some(who) ==> {
            let name = text::trimmed(user.first_name@ + " "@ + user.last_name@);
            &&& name.len() == 0 ==> who == user.email@
            &&& name.len() > 0 && user.email@.len() == 0 ==> who == name
            &&& name.len() > 0 && user.email@.len() > 0 ==> who == name + " <"@ + user.email@
                + ">"@
            &&& text::occurs(who, user.email@)
            &&& user.first_name@.len() > 0 && !text::is_white(user.first_name@[0])
                && !text::is_white(user.first_name@.last()) ==> text::occurs(who, user.first_name@)
            &&& user.last_name@.len() > 0 && !text::is_white(user.last_name@[0])
                && !text::is_white(user.last_name@.last()) ==> text::occurs(who, user.last_name@)
        },
{
    if let Some(who) = user.account() {
        let email = user.email@;
        let none = Seq::<char>::empty();
        let name = user.full_name();
        full_name_holds_both(user.first_name@, user.last_name@);
        if name.len() > 0 && email.len() > 0 {
            let tail = " <"@ + email + ">"@;
            text::occurs_inside(name + " <"@, email, ">"@);
            assert(none + name + tail =~= who);
            if text::occurs(name, user.first_name@) {
                text::occurs_in_more(none, name, tail, user.first_name@);
            }
            if text::occurs(name, user.last_name@) {
                text::occurs_in_more(none, name, tail, user.last_name@);
            }
        } else if name.len() == 0 {
            text::occurs_inside(none, email, none);
            assert(none + email + none =~= email);
        } else {
            text::occurs_inside(none, email, who);
            assert(none + email + who =~= who);
        }
    }
}

/// The full name holds each of the two that has no white space around it.
proof fn full_name_holds_both(first: Seq<char>, last: Seq<char>)
    ensures
        ({
            let name = text::trimmed(first + " "@ + last);
            &&& first.len() > 0 && !text::is_white(first[0]) && !text::is_white(first.last())
                ==> name.len() > 0 && text::occurs(name, first)
            &&& last.len() > 0 && !text::is_white(last[0]) && !text::is_white(last.last())
                ==> name.len() > 0 && text::occurs(name, last)
        }),
{
    let both = first + " "@ + last;
    let none = Seq::<char>::empty();
    reveal_strlit(" ");
    text::trimmed_is_the_middle(both);
    let (i, j) = choose|i: int, j: int|
        {
            &&& 0 <= i <= j <= both.len()
            &&& text::trimmed(both) == #[trigger] both.subrange(i, j)
            &&& forall|k: int|
                0 <= k < i || j <= k < both.len() ==> text::is_white(#[trigger] both[k])
            &&& i < j ==> !text::is_white(both[i]) && !text::is_white(both[j - 1])
        };
    let name = both.subrange(i, j);
    if first.len() > 0 && !text::is_white(first[0]) && !text::is_white(first.last()) {
        assert(both[0] == first[0]);
        assert(both[first.len() - 1] == first.last());
        let rest = both.subrange(first.len() as int, j);
        assert(name =~= none + first + rest);
        text::occurs_inside(none, first, rest);
    }
    if last.len() > 0 && !text::is_white(last[0]) && !text::is_white(last.last()) {
        let at = first.len() + 1;
        assert(both[both.len() - 1] == last.last());
        assert(both[at as int] == last[0]);
        let lead = both.subrange(i, at as int);
        assert(name =~= lead + last + none);
        text::occurs_inside(lead, last, none);
    }
}

/// Events are listed in their order, each with a comma before the next, between brackets.
pub proof fn events_are_listed(events: Seq<BasketEvent>, e: BasketEvent)
    ensures
        events_view(Seq::empty()) == seq!['[', ']'],
        events_view(seq![e]) == seq!['['] + e.json_view() + seq![']'],
        events.len() > 0 ==> events_view(events.push(e)) == events_view(events).drop_last() + seq![
            ',',
        ] + e.json_view() + seq![']'],
{
    reveal_strlit("[");
    reveal_strlit("]");
    reveal_strlit(",");
    let comma = ","@;
    assert("["@ =~= seq!['[']);
    assert("]"@ =~= seq![']']);
    assert(comma =~= seq![',']);
    text::joined_grows(event_texts(events), e.json_view(), comma);
    assert(event_texts(Seq::empty()) =~= Seq::empty());
    assert(events_view(Seq::empty()) =~= seq!['[', ']']);
    assert(event_texts(seq![e]) =~= seq![e.json_view()]);
    assert(event_texts(events.push(e)) =~= event_texts(events).push(e.json_view()));
    if events.len() > 0 {
        let list = text::joined(event_texts(events), comma);
        assert(("["@ + list + "]"@).drop_last() =~= "["@ + list);
        assert("["@ + (list + comma + e.json_view()) + "]"@ =~= "["@ + list + comma + e.json_view()
            + "]"@);
    }
}

/// What an event says on the wire: its kind by the shop's own name, the item by the id, the
/// EAN or nothing, and the amount and the unit that it carries, each under its key.
pub proof fn events_say_what_they_carry(item_id: String, value: AmountInfo, item: NewItem)
    ensures
        ({
            let number = |info: AmountInfo|
                if info.amount.value.is_finite() {
                    info.amount.json@
                } else {
                    "null"@
                };
            let info = |info: AmountInfo|
                "{\"amount\":"@ + number(info) + ",\"unit\":"@ + json::quoted(info.unit@) + "}"@;
            &&& BasketEvent::ClearItems.json_view() == "{\"type\":\"CLEAR-ITEMS\"}"@
            &&& BasketEvent::RemoveItem { item_id }.json_view() == "{\"itemId\":"@ + json::quoted(
                item_id@,
            ) + ",\"type\":\"REMOVE-ITEM\"}"@
            &&& BasketEvent::SetItemAmount { item_id, value }.json_view() == "{\"itemId\":"@
                + json::quoted(item_id@) + ",\"type\":\"SET-ITEM-AMOUNT\",\"value\":"@ + info(value)
                + "}"@
            &&& BasketEvent::AddItem { item }.json_view() == "{\"item\":"@ + (
            "{\"allowSubstitutes\":"@ + (if item.allow_substitutes {
                "true"@
            } else {
                "false"@
            }) + ",\"amountInfo\":"@ + info(item.amount_info) + ",\"ean\":"@ + json::quoted(item.ean@)
                + (match item.local_store_id {
                Some(id) => ",\"localStoreId\":"@ + json::quoted(id@),
                None => Seq::<char>::empty(),
            }) + "}"@) + ",\"type\":\"ADD-ITEM\"}"@
        }),
{
}

} // verus!
