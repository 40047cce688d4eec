//! The `/kr-api/basket/...` calls: what is sent, and what an answer leads to.
//!
//! A cart operation is a walk of steps. Each step either asks for one request to be sent,
//! and says what to do with the answer, or is done. Nothing here sends anything: whoever
//! drives the walk does, and hands the answer to [`Cart::resume`].

use crate::amount::{self, Amount};
use crate::browser::error::{ApiError, ErrorView};
use crate::types::{AmountInfo, Basket, BasketEvent, BasketItem, NewItem};
use crate::{json, text, types};
use vstd::prelude::*;

verus! {

/// A request to K-Ruoka: the method, the path, and the body in JSON.
#[derive(Debug)]
pub struct Request {
    pub method: &'static str,
    pub path: String,
    pub body: String,
}

/// What a [`Request`] asks, over the characters of its texts.
pub struct RequestView {
    pub method: Seq<char>,
    pub path: Seq<char>,
    pub body: Seq<char>,
}

impl View for Request {
    type V = RequestView;

    open spec fn view(&self) -> RequestView {
        RequestView { method: self.method@, path: self.path@, body: self.body@ }
    }
}

/// The request for the active basket of a store.
pub open spec fn active_view(store_id: Seq<char>) -> RequestView {
    RequestView {
        method: "POST"@,
        path: "/kr-api/basket/active"@,
        body: "{\"storeId\":"@ + json::quoted(store_id) + ",\"substitutionDefault\":true}"@,
    }
}

/// The request that applies events to a basket.
pub open spec fn apply_view(basket_id: Seq<char>, events: Seq<BasketEvent>) -> RequestView {
    RequestView {
        method: "PATCH"@,
        path: "/kr-api/basket/by-id/"@ + basket_id,
        body: types::events_view(events),
    }
}

fn active_request(store_id: &str) -> (r: Request)
    ensures
        r@ == active_view(store_id@),
{
    let mut body = "{\"storeId\":".to_owned();
    let id = json::quote(store_id);
    body.append(id.as_str());
    body.append(",\"substitutionDefault\":true}");
    Request { method: "POST", path: "/kr-api/basket/active".to_owned(), body }
}

fn apply_request(basket_id: &str, events: &Vec<BasketEvent>) -> (r: Request)
    ensures
        r@ == apply_view(basket_id@, events@),
{
    let mut path = "/kr-api/basket/by-id/".to_owned();
    path.append(basket_id);
    Request { method: "PATCH", path, body: types::events_json(events) }
}

/// The store id stays a text of the request: it is read back as itself where it stands.
pub proof fn store_id_stays_a_text(store_id: Seq<char>)
    ensures
        json::read_literal(
            active_view(store_id).body.skip("{\"storeId\":"@.len() as int),
        ) == Some((store_id, ",\"substitutionDefault\":true}"@)),
{
    json::quoted_reads_back_inside(
        "{\"storeId\":"@,
        store_id,
        ",\"substitutionDefault\":true}"@,
    );
}

/// The first item of a basket with this item id.
pub open spec fn with_id(items: Seq<BasketItem>, id: Seq<char>) -> Option<BasketItem>
    decreases items.len(),
{
    if items.len() == 0 {
        None
    } else if items[0].id@ == id {
        Some(items[0])
    } else {
        with_id(items.drop_first(), id)
    }
}

/// The first item of a basket with this EAN.
pub open spec fn with_ean(items: Seq<BasketItem>, ean: Seq<char>) -> Option<BasketItem>
    decreases items.len(),
{
    if items.len() == 0 {
        None
    } else if items[0].ean@ == ean {
        Some(items[0])
    } else {
        with_ean(items.drop_first(), ean)
    }
}

/// An item id is found exactly where some item carries it, and what is found carries it.
pub proof fn with_id_finds(items: Seq<BasketItem>, id: Seq<char>)
    ensures
        with_id(items, id) is Some == exists|i: int|
            0 <= i < items.len() && (#[trigger] items[i]).id@ == id,
        with_id(items, id) matches Some(item) ==> item.id@ == id && items.contains(item),
    decreases items.len(),
{
    if items.len() > 0 && items[0].id@ != id {
        let rest = items.drop_first();
        with_id_finds(rest, id);
        if with_id(rest, id) is Some {
            let i = choose|i: int| 0 <= i < rest.len() && (#[trigger] rest[i]).id@ == id;
            assert(items[i + 1].id@ == id);
            let item = with_id(rest, id)->0;
            let j = choose|j: int| 0 <= j < rest.len() && rest[j] == item;
            assert(items[j + 1] == item);
        } else if exists|i: int| 0 <= i < items.len() && (#[trigger] items[i]).id@ == id {
            let i = choose|i: int| 0 <= i < items.len() && (#[trigger] items[i]).id@ == id;
            assert(rest[i - 1].id@ == id);
        }
    }
}

/// An EAN is found exactly where some item, at any place, carries it, and what is found
/// carries it and is in the basket.
pub proof fn with_ean_finds(items: Seq<BasketItem>, ean: Seq<char>)
    ensures
        with_ean(items, ean) is Some == exists|i: int|
            0 <= i < items.len() && (#[trigger] items[i]).ean@ == ean,
        with_ean(items, ean) matches Some(item) ==> item.ean@ == ean && items.contains(item),
    decreases items.len(),
{
    if items.len() > 0 && items[0].ean@ != ean {
        let rest = items.drop_first();
        with_ean_finds(rest, ean);
        if with_ean(rest, ean) is Some {
            let i = choose|i: int| 0 <= i < rest.len() && (#[trigger] rest[i]).ean@ == ean;
            assert(items[i + 1].ean@ == ean);
            let item = with_ean(rest, ean)->0;
            let j = choose|j: int| 0 <= j < rest.len() && rest[j] == item;
            assert(items[j + 1] == item);
        } else if exists|i: int| 0 <= i < items.len() && (#[trigger] items[i]).ean@ == ean {
            let i = choose|i: int| 0 <= i < items.len() && (#[trigger] items[i]).ean@ == ean;
            assert(rest[i - 1].ean@ == ean);
        }
    }
}

/// The first item, wherever it stands, that carries an item id or an EAN is the one that is
/// found by it.
pub proof fn the_first_is_found(items: Seq<BasketItem>, key: Seq<char>, i: int)
    requires
        0 <= i < items.len(),
    ensures
        items[i].id@ == key && (forall|j: int| 0 <= j < i ==> (#[trigger] items[j]).id@ != key)
            ==> with_id(items, key) == Some(items[i]),
        items[i].ean@ == key && (forall|j: int| 0 <= j < i ==> (#[trigger] items[j]).ean@ != key)
            ==> with_ean(items, key) == Some(items[i]),
    decreases i,
{
    if i > 0 {
        let rest = items.drop_first();
        the_first_is_found(rest, key, i - 1);
        assert(rest[i - 1] == items[i]);
        if forall|j: int| 0 <= j < i ==> (#[trigger] items[j]).id@ != key {
            assert forall|j: int| 0 <= j < i - 1 implies (#[trigger] rest[j]).id@ != key by {
                assert(items[j + 1].id@ != key);
            }
            assert(items[0].id@ != key);
        }
        if forall|j: int| 0 <= j < i ==> (#[trigger] items[j]).ean@ != key {
            assert forall|j: int| 0 <= j < i - 1 implies (#[trigger] rest[j]).ean@ != key by {
                assert(items[j + 1].ean@ != key);
            }
            assert(items[0].ean@ != key);
        }
    }
}

fn find_by_id<'b>(items: &'b Vec<BasketItem>, id: &str) -> (r: Option<&'b BasketItem>)
    ensures
        r is Some == with_id(items@, id@) is Some,
        r matches Some(item) ==> with_id(items@, id@) == Some(*item),
{
    let mut i: usize = 0;
    assert(items@.skip(0) =~= items@);
    while i < items.len()
        invariant
            i <= items@.len(),
            with_id(items@, id@) == with_id(items@.skip(i as int), id@),
        decreases items@.len() - i,
    {
        if text::same(items[i].id.as_str(), id) {
            return Some(&items[i]);
        }
        assert(items@.skip(i as int).drop_first() =~= items@.skip(i + 1));
        i = i + 1;
    }
    None
}

fn find_by_ean<'b>(items: &'b Vec<BasketItem>, ean: &str) -> (r: Option<&'b BasketItem>)
    ensures
        r is Some == with_ean(items@, ean@) is Some,
        r matches Some(item) ==> with_ean(items@, ean@) == Some(*item),
{
    let mut i: usize = 0;
    assert(items@.skip(0) =~= items@);
    while i < items.len()
        invariant
            i <= items@.len(),
            with_ean(items@, ean@) == with_ean(items@.skip(i as int), ean@),
        decreases items@.len() - i,
    {
        if text::same(items[i].ean.as_str(), ean) {
            return Some(&items[i]);
        }
        assert(items@.skip(i as int).drop_first() =~= items@.skip(i + 1));
        i = i + 1;
    }
    None
}

/// The item ids of a basket, in order.
pub open spec fn ids(items: Seq<BasketItem>) -> Seq<Seq<char>> {
    Seq::new(items.len(), |i: int| items[i].id@)
}

/// What is said of an item id that is not in the cart.
pub open spec fn missing_item(items: Seq<BasketItem>, item_id: Seq<char>) -> Seq<char> {
    if items.len() == 0 {
        "no item "@ + text::debug_quoted(item_id) + " in the cart -- the cart is empty"@
    } else {
        "no item "@ + text::debug_quoted(item_id) + " in the cart. Item ids currently in it: "@
            + text::joined(ids(items), ", "@)
            + ". Note these are basket item ids from get_cart, not EANs."@
    }
}

/// An item id that is not in the cart is named back, where it is plain, with every id that is.
pub proof fn missing_item_is_named(items: Seq<BasketItem>, item_id: Seq<char>)
    ensures
        text::is_plain(item_id) ==> text::occurs(missing_item(items, item_id), item_id),
        forall|i: int|
            0 <= i < items.len() ==> text::occurs(
                missing_item(items, item_id),
                (#[trigger] items[i]).id@,
            ),
{
    let lead = "no item "@;
    let id = text::debug_quoted(item_id);
    let empty = " in the cart -- the cart is empty"@;
    let listed = " in the cart. Item ids currently in it: "@;
    let list = text::joined(ids(items), ", "@);
    let note = ". Note these are basket item ids from get_cart, not EANs."@;
    if text::is_plain(item_id) {
        if items.len() == 0 {
            text::plain_text_is_shown(lead, item_id, empty);
        } else {
            text::plain_text_is_shown(lead, item_id, listed + list + note);
            assert(lead + id + (listed + list + note) =~= lead + id + listed + list + note);
        }
    }
    assert forall|i: int| 0 <= i < items.len() implies text::occurs(
        missing_item(items, item_id),
        (#[trigger] items[i]).id@,
    ) by {
        text::parts_are_joined(ids(items), ", "@, i);
        text::occurs_in_more(lead + id + listed, list, note, items[i].id@);
    }
}

/// Resolve an item id against the cart, refusing one that is not there.
///
/// K-Ruoka accepts a change to an item id that is not in the basket and answers 200 with
/// the basket unchanged, so a mistyped id looks like a success. The caller most likely
/// passed an EAN where an item id was wanted: fail loudly and list what is valid.
pub fn find_item<'b>(basket: &'b Basket, item_id: &str) -> (r: Result<&'b BasketItem, ApiError>)
    ensures
        r is Ok == with_id(basket.items@, item_id@) is Some,
        r matches Ok(item) ==> with_id(basket.items@, item_id@) == Some(*item),
        r matches Err(e) ==> e@ == ErrorView::InvalidRequest(
            missing_item(basket.items@, item_id@),
        ),
{
    if let Some(item) = find_by_id(&basket.items, item_id) {
        return Ok(item);
    }
    let mut m = "no item ".to_owned();
    let id = text::debug_quote(item_id);
    m.append(id.as_str());
    if basket.items.len() == 0 {
        m.append(" in the cart -- the cart is empty");
        return Err(ApiError::InvalidRequest(m));
    }
    m.append(" in the cart. Item ids currently in it: ");
    let mut available: Vec<String> = Vec::new();
    let mut i: usize = 0;
    while i < basket.items.len()
        invariant
            i <= basket.items@.len(),
            available@.len() == i,
            forall|j: int| 0 <= j < i ==> (#[trigger] available@[j])@ == basket.items@[j].id@,
        decreases basket.items@.len() - i,
    {
        available.push(basket.items[i].id.clone());
        i = i + 1;
    }
    assert(text::views(available@) =~= ids(basket.items@));
    let list = text::join(&available, ", ");
    m.append(list.as_str());
    m.append(". Note these are basket item ids from get_cart, not EANs.");
    Err(ApiError::InvalidRequest(m))
}

/// K-Ruoka turned down the store id.
pub open spec fn is_store_error(e: ErrorView) -> bool {
    e matches ErrorView::Api { status, message } && status == 422 && text::occurs(
        message,
        "InvalidStoreIdError"@,
    )
}

/// An error with a turned-down store id named; any other error as it is.
pub open spec fn clarified(e: ErrorView, store_id: Seq<char>) -> ErrorView {
    if is_store_error(e) {
        ErrorView::Api {
            status: 422,
            message: "K-Ruoka rejected store id "@ + text::debug_quoted(store_id)
                + " as invalid. Store ids look like \"N137\"; use search_stores to find one."@,
        }
    } else {
        e
    }
}

/// K-Ruoka answers a bad store id with a 422 whose message does not echo the id. Say
/// which one the caller actually passed.
pub fn clarify_store_error(e: ApiError, store_id: &str) -> (r: ApiError)
    ensures
        r@ == clarified(e@, store_id@),
{
    let bad_store = match &e {
        ApiError::Api { status, message } => *status == 422 && text::contains(
            message.as_str(),
            "InvalidStoreIdError",
        ),
        _ => false,
    };
    if !bad_store {
        return e;
    }
    let mut m = "K-Ruoka rejected store id ".to_owned();
    let id = text::debug_quote(store_id);
    m.append(id.as_str());
    m.append(" as invalid. Store ids look like \"N137\"; use search_stores to find one.");
    ApiError::Api { status: 422, message: m }
}

/// A store id that K-Ruoka turned down is named back to the caller, where it is plain.
pub proof fn rejected_store_is_named(e: ErrorView, store_id: Seq<char>)
    requires
        is_store_error(e),
        text::is_plain(store_id),
    ensures
        clarified(e, store_id) matches ErrorView::Api { status, message } && status == 422
            && text::occurs(message, store_id),
{
    text::plain_text_is_shown(
        "K-Ruoka rejected store id "@,
        store_id,
        " as invalid. Store ids look like \"N137\"; use search_stores to find one."@,
    );
}

/// The two are the same number.
pub open spec fn same_number(a: Amount, b: Amount) -> bool {
    a.value.is_number() && b.value.is_number() && a.value.value() == b.value.value()
}

/// The quantity is zero, the documented spelling of "remove".
pub open spec fn is_zero(a: Amount) -> bool {
    a.value.is_number() && a.value.value() == amount::whole(0)
}

/// The quantity is a number above zero.
pub open spec fn is_positive(a: Amount) -> bool {
    a.value.is_number() && a.value.value() > amount::whole(0)
}

/// The quantity is a number and not below zero.
pub open spec fn is_not_negative(a: Amount) -> bool {
    a.value.is_number() && a.value.value() >= amount::whole(0)
}

/// A cart that shows `got` kept what was `wanted`: the same number, or K-Ruoka's limit
/// where more was wanted.
pub open spec fn keeps(got: Amount, wanted: Amount) -> bool {
    ||| same_number(got, wanted)
    ||| {
        &&& wanted.value.is_number()
        &&& wanted.value.value() > amount::whole(amount::MAX_AMOUNT as nat)
        &&& got.value.is_number()
        &&& got.value.value() == amount::whole(amount::MAX_AMOUNT as nat)
    }
}

/// The items show that the item was set to the amount.
pub open spec fn amount_taken(items: Seq<BasketItem>, item_id: Seq<char>, wanted: Amount) -> bool {
    match with_id(items, item_id) {
        None => is_zero(wanted),
        Some(item) => !is_zero(wanted) && keeps(item.amount_info.amount, wanted),
    }
}

/// What is said of items that do not show the amount.
pub open spec fn amount_complaint(
    items: Seq<BasketItem>,
    item_id: Seq<char>,
    wanted: Amount,
) -> Seq<char> {
    match with_id(items, item_id) {
        None => "K-Ruoka accepted setting item "@ + item_id + " to "@ + wanted.shown@
            + " but the item is not in the cart it returned. Something else probably removed it at the same time; call get_cart to see the current state."@,
        Some(item) => if is_zero(wanted) {
            "asked K-Ruoka to remove item "@ + item_id
                + " (amount 0) but it is still in the cart it returned, with amount "@
                + item.amount_info.amount.shown@ + "."@
        } else {
            "asked K-Ruoka to set item "@ + item_id + " to "@ + wanted.shown@
                + " but the cart it returned shows "@ + item.amount_info.amount.shown@ + "."@
        },
    }
}

/// Confirm that a `SET-ITEM-AMOUNT` took effect.
///
/// The id was checked against an earlier read, and calls run concurrently, so another
/// call can remove the item in between. K-Ruoka then answers 200 and changes nothing.
pub fn confirm_amount(after: &Basket, item_id: &str, wanted: &Amount) -> (r: Result<(), ApiError>)
    ensures
        r is Ok == amount_taken(after.items@, item_id@, *wanted),
        r matches Err(e) ==> e@ == ErrorView::Other(
            amount_complaint(after.items@, item_id@, *wanted),
        ),
{
    let removing: bool = wanted.value.equals(amount::zero());
    let item = match find_by_id(&after.items, item_id) {
        Some(item) => item,
        None => {
            if removing {
                return Ok(());
            }
            let mut m = "K-Ruoka accepted setting item ".to_owned();
            m.append(item_id);
            m.append(" to ");
            m.append(wanted.shown.as_str());
            m.append(
                " but the item is not in the cart it returned. Something else probably removed it at the same time; call get_cart to see the current state.",
            );
            return Err(ApiError::Other(m));
        },
    };
    let got: &Amount = &item.amount_info.amount;
    if removing {
        let mut m = "asked K-Ruoka to remove item ".to_owned();
        m.append(item_id);
        m.append(" (amount 0) but it is still in the cart it returned, with amount ");
        m.append(got.shown.as_str());
        m.append(".");
        return Err(ApiError::Other(m));
    }
    let limit = amount::max_amount();
    if got.value.equals(wanted.value) || (limit.less(wanted.value) && got.value.equals(limit)) {
        return Ok(());
    }
    let mut m = "asked K-Ruoka to set item ".to_owned();
    m.append(item_id);
    m.append(" to ");
    m.append(wanted.shown.as_str());
    m.append(" but the cart it returned shows ");
    m.append(got.shown.as_str());
    m.append(".");
    Err(ApiError::Other(m))
}

/// What is said of an item that is still there after its removal.
pub open spec fn still_there(item_id: Seq<char>) -> Seq<char> {
    "K-Ruoka accepted removing item "@ + item_id
        + " but it is still in the cart it returned. Call get_cart to see the current state."@
}

/// Confirm that a `REMOVE-ITEM` removed the item: a 200 is no evidence.
pub fn confirm_absent(after: &Basket, item_id: &str) -> (r: Result<(), ApiError>)
    ensures
        r is Ok == with_id(after.items@, item_id@) is None,
        r matches Err(e) ==> e@ == ErrorView::Other(still_there(item_id@)),
{
    if find_by_id(&after.items, item_id).is_none() {
        return Ok(());
    }
    let mut m = "K-Ruoka accepted removing item ".to_owned();
    m.append(item_id);
    m.append(" but it is still in the cart it returned. Call get_cart to see the current state.");
    Err(ApiError::Other(m))
}

/// What a cart operation waits for: the answer to the request it last asked for.
#[derive(Debug)]
pub enum Waiting {
    /// The active basket is the result.
    Active { store_id: String },
    /// The changed basket is the result.
    Applied,
    /// The active basket is to be changed by these events.
    Mutating { store_id: String, events: Vec<BasketEvent> },
    /// The active basket is to get an item.
    Adding { store_id: String, ean: String, event: BasketEvent },
    /// The changed basket should hold the item, as a product that K-Ruoka knows.
    Added { ean: String },
    /// The changed basket should no longer hold the unknown product.
    Undoing { ean: String, item_id: String },
    /// An item of the active basket is to be set to an amount.
    Setting { store_id: String, item_id: String, amount: Amount, unit: Option<String> },
    /// The changed basket should show the amount.
    AmountSet { item_id: String, wanted: Amount },
    /// An item is to be removed from the active basket.
    Removing { store_id: String, item_id: String },
    /// The changed basket should no longer hold the item.
    Removed { item_id: String },
}

/// One step of a cart operation: a request to send and what its answer is awaited for, or
/// the result.
#[derive(Debug)]
pub enum Step {
    Send { request: Request, next: Waiting },
    Done(Result<Basket, ApiError>),
}

impl Step {
    /// The operation is done, and this basket is the result.
    pub open spec fn succeeds(self, basket: Basket) -> bool {
        self == Step::Done(Ok(basket))
    }

    /// The operation is done, and this error is the result.
    pub open spec fn fails(self, e: ErrorView) -> bool {
        self matches Step::Done(Err(x)) && x@ == e
    }

    /// The operation asks for this request and awaits its answer for this.
    pub open spec fn asks(self, q: RequestView, w: Waiting) -> bool {
        self matches Step::Send { request, next } && request@ == q && next == w
    }
}

/// What is said of an added item that the returned cart does not hold.
pub open spec fn not_in_cart(ean: Seq<char>) -> Seq<char> {
    "K-Ruoka accepted the add for EAN "@ + ean
        + " but the item is not in the cart it returned. Nothing was changed as far as can be told; check the cart."@
}

/// What is said of an unknown product that was taken out again.
pub open spec fn nothing_added(ean: Seq<char>) -> Seq<char> {
    "K-Ruoka has no product with EAN "@ + ean + "; nothing was added."@
}

/// What is said of an unknown product that could not be taken out again.
pub open spec fn left_behind(ean: Seq<char>, item_id: Seq<char>) -> Seq<char> {
    "K-Ruoka has no product with EAN "@ + ean
        + ". It was added to the cart as \"Unknown product\" and could not be removed again -- call remove_from_cart with item_id="@
        + item_id + "."@
}

/// What is said of a quantity that would add nothing.
pub open spec fn adds_nothing(shown: Seq<char>) -> Seq<char> {
    "quantity must be greater than 0 (got "@ + shown
        + "). K-Ruoka would accept this and add nothing while reporting success."@
}

/// What is said of an empty EAN.
pub open spec fn empty_ean() -> Seq<char> {
    "ean must not be empty. Use search_products to find a product's EAN barcode."@
}

/// What is said of a quantity below zero.
pub open spec fn below_zero(shown: Seq<char>) -> Seq<char> {
    "quantity cannot be negative (got "@ + shown + "). Use 0 to remove the item."@
}

/// The event that removes an item.
pub open spec fn removal(item_id: String) -> BasketEvent {
    BasketEvent::RemoveItem { item_id }
}

/// The event that sets an item to an amount: in the unit that is asked for, or else in the
/// one that the item already has.
pub open spec fn setting(
    item: BasketItem,
    item_id: String,
    amount: Amount,
    unit: Option<String>,
) -> BasketEvent {
    BasketEvent::SetItemAmount {
        item_id,
        value: AmountInfo {
            amount,
            unit: match unit {
                Some(unit) => unit,
                None => item.amount_info.unit,
            },
        },
    }
}

/// `r` sets an item of `basket` to an amount, or refuses an item id that is not in it.
pub open spec fn sets_in(
    basket: Basket,
    item_id: String,
    amount: Amount,
    unit: Option<String>,
    r: Step,
) -> bool {
    match with_id(basket.items@, item_id@) {
        None => r.fails(ErrorView::InvalidRequest(missing_item(basket.items@, item_id@))),
        Some(item) => r.asks(
            apply_view(basket.id@, seq![setting(item, item_id, amount, unit)]),
            Waiting::AmountSet { item_id, wanted: amount },
        ),
    }
}

/// `r` is what an operation that awaits `w` does with the answer `reply`.
pub open spec fn steps_to(w: Waiting, reply: Result<Basket, ApiError>, r: Step) -> bool {
    match w {
        Waiting::Active { store_id } => match reply {
            Ok(basket) => r.succeeds(basket),
            Err(e) => r.fails(clarified(e@, store_id@)),
        },
        Waiting::Applied => match reply {
            Ok(basket) => r.succeeds(basket),
            Err(e) => r.fails(e@),
        },
        Waiting::Mutating { store_id, events } => match reply {
            Ok(basket) => r.asks(apply_view(basket.id@, events@), Waiting::Applied),
            Err(e) => r.fails(clarified(e@, store_id@)),
        },
        Waiting::Adding { store_id, ean, event } => match reply {
            Ok(basket) => r.asks(apply_view(basket.id@, seq![event]), Waiting::Added { ean }),
            Err(e) => r.fails(clarified(e@, store_id@)),
        },
        Waiting::Added { ean } => match reply {
            Ok(basket) => match with_ean(basket.items@, ean@) {
                None => r.fails(ErrorView::Other(not_in_cart(ean@))),
                Some(item) => if item.known() {
                    r.succeeds(basket)
                } else {
                    r.asks(
                        apply_view(basket.id@, seq![removal(item.id)]),
                        Waiting::Undoing { ean, item_id: item.id },
                    )
                },
            },
            Err(e) => r.fails(e@),
        },
        Waiting::Undoing { ean, item_id } => if reply is Ok && with_id(
            reply->Ok_0.items@,
            item_id@,
        ) is None {
            r.fails(ErrorView::InvalidRequest(nothing_added(ean@)))
        } else {
            r.fails(ErrorView::InvalidRequest(left_behind(ean@, item_id@)))
        },
        Waiting::Setting { store_id, item_id, amount, unit } => match reply {
            Ok(basket) => sets_in(basket, item_id, amount, unit, r),
            Err(e) => r.fails(clarified(e@, store_id@)),
        },
        Waiting::AmountSet { item_id, wanted } => match reply {
            Ok(after) => if amount_taken(after.items@, item_id@, wanted) {
                r.succeeds(after)
            } else {
                r.fails(ErrorView::Other(amount_complaint(after.items@, item_id@, wanted)))
            },
            Err(e) => r.fails(e@),
        },
        Waiting::Removing { store_id, item_id } => match reply {
            Ok(basket) => if with_id(basket.items@, item_id@) is None {
                r.fails(ErrorView::InvalidRequest(missing_item(basket.items@, item_id@)))
            } else {
                r.asks(
                    apply_view(basket.id@, seq![removal(item_id)]),
                    Waiting::Removed { item_id },
                )
            },
            Err(e) => r.fails(clarified(e@, store_id@)),
        },
        Waiting::Removed { item_id } => match reply {
            Ok(after) => if with_id(after.items@, item_id@) is None {
                r.succeeds(after)
            } else {
                r.fails(ErrorView::Other(still_there(item_id@)))
            },
            Err(e) => r.fails(e@),
        },
    }
}

fn fail(e: ApiError) -> (r: Step)
    ensures
        r.fails(e@),
{
    Step::Done(Err(e))
}

fn change(basket_id: &str, event: BasketEvent, next: Waiting) -> (r: Step)
    ensures
        r.asks(apply_view(basket_id@, seq![event]), next),
{
    let mut events: Vec<BasketEvent> = Vec::new();
    events.push(event);
    assert(events@ =~= seq![event]);
    Step::Send { request: apply_request(basket_id, &events), next }
}

/// The cart operations.
pub struct Cart;

impl Cart {
    /// Fetch (or implicitly create) the active basket of a store.
    ///
    /// An anonymous session gets a fresh, valid basket, so a success is no evidence of
    /// being signed in.
    pub fn active(store_id: String) -> (r: Step)
        ensures
            r.asks(active_view(store_id@), Waiting::Active { store_id }),
    {
        let request = active_request(store_id.as_str());
        Step::Send { request, next: Waiting::Active { store_id } }
    }

    /// Apply a batch of events to a basket; the answer is the whole changed basket.
    pub fn apply(basket_id: &str, events: &Vec<BasketEvent>) -> (r: Step)
        ensures
            r.asks(apply_view(basket_id@, events@), Waiting::Applied),
    {
        Step::Send { request: apply_request(basket_id, events), next: Waiting::Applied }
    }

    /// Read the cart of a store and apply events to it.
    pub fn mutate(store_id: String, events: Vec<BasketEvent>) -> (r: Step)
        ensures
            r.asks(active_view(store_id@), Waiting::Mutating { store_id, events }),
    {
        let request = active_request(store_id.as_str());
        Step::Send { request, next: Waiting::Mutating { store_id, events } }
    }

    /// Put a product into the cart. `amount` is the resulting quantity, not a delta: adding
    /// one twice leaves one.
    ///
    /// A quantity of zero or below, which K-Ruoka accepts and ignores, and an empty EAN,
    /// which would match an item that carries none, are refused before anything is sent.
    pub fn add(
        store_id: String,
        ean: String,
        amount: Amount,
        unit: String,
        local_store_id: Option<String>,
        allow_substitutes: bool,
    ) -> (r: Step)
        ensures
            !is_positive(amount) ==> r.fails(
                ErrorView::InvalidRequest(adds_nothing(amount.shown@)),
            ),
            is_positive(amount) && text::is_blank(ean@) ==> r.fails(
                ErrorView::InvalidRequest(empty_ean()),
            ),
            is_positive(amount) && !text::is_blank(ean@) ==> r.asks(
                active_view(store_id@),
                Waiting::Adding {
                    store_id,
                    ean,
                    event: BasketEvent::AddItem {
                        item: NewItem {
                            ean,
                            local_store_id,
                            allow_substitutes,
                            amount_info: AmountInfo { amount, unit },
                        },
                    },
                },
            ),
    {
        if !amount::zero().less(amount.value) {
            let mut m = "quantity must be greater than 0 (got ".to_owned();
            m.append(amount.shown.as_str());
            m.append("). K-Ruoka would accept this and add nothing while reporting success.");
            return fail(ApiError::InvalidRequest(m));
        }
        if text::blank(ean.as_str()) {
            return fail(
                ApiError::InvalidRequest(
                    "ean must not be empty. Use search_products to find a product's EAN barcode.".to_owned(),
                ),
            );
        }
        let event = BasketEvent::AddItem {
            item: NewItem {
                ean: ean.clone(),
                local_store_id,
                allow_substitutes,
                amount_info: AmountInfo { amount, unit },
            },
        };
        let request = active_request(store_id.as_str());
        Step::Send { request, next: Waiting::Adding { store_id, ean, event } }
    }

    /// Set the amount of an item that is in the cart. Zero removes it.
    ///
    /// Without a `unit` the item keeps the one it has: any other default would silently
    /// turn kilograms into pieces. A negative amount is refused before anything is sent.
    pub fn set_amount(
        store_id: String,
        item_id: String,
        amount: Amount,
        unit: Option<String>,
    ) -> (r: Step)
        ensures
            !is_not_negative(amount) ==> r.fails(
                ErrorView::InvalidRequest(below_zero(amount.shown@)),
            ),
            is_not_negative(amount) ==> r.asks(
                active_view(store_id@),
                Waiting::Setting { store_id, item_id, amount, unit },
            ),
    {
        if amount.value.less(amount::zero()) || amount.value.is_nan() {
            let mut m = "quantity cannot be negative (got ".to_owned();
            m.append(amount.shown.as_str());
            m.append("). Use 0 to remove the item.");
            return fail(ApiError::InvalidRequest(m));
        }
        let request = active_request(store_id.as_str());
        Step::Send { request, next: Waiting::Setting { store_id, item_id, amount, unit } }
    }

    /// Remove an item that is in the cart.
    pub fn remove(store_id: String, item_id: String) -> (r: Step)
        ensures
            r.asks(active_view(store_id@), Waiting::Removing { store_id, item_id }),
    {
        let request = active_request(store_id.as_str());
        Step::Send { request, next: Waiting::Removing { store_id, item_id } }
    }

    /// Empty the cart. The basket and its settings stay.
    pub fn clear(store_id: String) -> (r: Step)
        ensures
            r matches Step::Send { request, next: Waiting::Mutating { store_id: s, events } } && {
                &&& request@ == active_view(store_id@)
                &&& s == store_id
                &&& events@ == seq![BasketEvent::ClearItems]
            },
    {
        let mut events: Vec<BasketEvent> = Vec::new();
        events.push(BasketEvent::ClearItems);
        assert(events@ =~= seq![BasketEvent::ClearItems]);
        Cart::mutate(store_id, events)
    }

    /// What an operation does with the answer it was waiting for.
    pub fn resume(waiting: Waiting, reply: Result<Basket, ApiError>) -> (r: Step)
        ensures
            steps_to(waiting, reply, r),
    {
        match waiting {
            Waiting::Active { store_id } => match reply {
                Ok(basket) => Step::Done(Ok(basket)),
                Err(e) => fail(clarify_store_error(e, store_id.as_str())),
            },
            Waiting::Applied => Step::Done(reply),
            Waiting::Mutating { store_id, events } => match reply {
                Ok(basket) => Cart::apply(basket.id.as_str(), &events),
                Err(e) => fail(clarify_store_error(e, store_id.as_str())),
            },
            Waiting::Adding { store_id, ean, event } => match reply {
                Ok(basket) => change(basket.id.as_str(), event, Waiting::Added { ean }),
                Err(e) => fail(clarify_store_error(e, store_id.as_str())),
            },
            Waiting::Added { ean } => match reply {
                Ok(basket) => Cart::check_added(basket, ean),
                Err(e) => fail(e),
            },
            Waiting::Undoing { ean, item_id } => Cart::report_unknown(ean, item_id, reply),
            Waiting::Setting { store_id, item_id, amount, unit } => match reply {
                Ok(basket) => Cart::set_in(basket, item_id, amount, unit),
                Err(e) => fail(clarify_store_error(e, store_id.as_str())),
            },
            Waiting::AmountSet { item_id, wanted } => match reply {
                Ok(after) => match confirm_amount(&after, item_id.as_str(), &wanted) {
                    Ok(()) => Step::Done(Ok(after)),
                    Err(e) => fail(e),
                },
                Err(e) => fail(e),
            },
            Waiting::Removing { store_id, item_id } => match reply {
                Ok(basket) => match find_item(&basket, item_id.as_str()) {
                    Ok(_) => {
                        let event = BasketEvent::RemoveItem { item_id: item_id.clone() };
                        change(basket.id.as_str(), event, Waiting::Removed { item_id })
                    },
                    Err(e) => fail(e),
                },
                Err(e) => fail(clarify_store_error(e, store_id.as_str())),
            },
            Waiting::Removed { item_id } => match reply {
                Ok(after) => match confirm_absent(&after, item_id.as_str()) {
                    Ok(()) => Step::Done(Ok(after)),
                    Err(e) => fail(e),
                },
                Err(e) => fail(e),
            },
        }
    }

    /// An answer that is no basket.
    pub fn unexpected_shape(reason: &str) -> (r: ApiError)
        ensures
            r@ == ErrorView::Other("unexpected basket shape: "@ + reason@),
    {
        let mut m = "unexpected basket shape: ".to_owned();
        m.append(reason);
        ApiError::Other(m)
    }

    /// `ADD-ITEM` accepts any EAN and inserts an unknown product for one it does not
    /// recognise, so look for the item rather than trust the status, and take an unknown
    /// product out again through the basket id in hand.
    fn check_added(basket: Basket, ean: String) -> (r: Step)
        ensures
            steps_to(Waiting::Added { ean }, Ok(basket), r),
    {
        let item_id = match find_by_ean(&basket.items, ean.as_str()) {
            None => {
                let mut m = "K-Ruoka accepted the add for EAN ".to_owned();
                m.append(ean.as_str());
                m.append(
                    " but the item is not in the cart it returned. Nothing was changed as far as can be told; check the cart.",
                );
                return fail(ApiError::Other(m));
            },
            Some(added) => {
                if added.is_known_product() {
                    None
                } else {
                    Some(added.id.clone())
                }
            },
        };
        match item_id {
            None => Step::Done(Ok(basket)),
            Some(item_id) => {
                let undo = BasketEvent::RemoveItem { item_id: item_id.clone() };
                change(basket.id.as_str(), undo, Waiting::Undoing { ean, item_id })
            },
        }
    }

    /// Say what became of an unknown product: look at the returned basket, not at the
    /// status, so that none is left behind in silence.
    fn report_unknown(ean: String, item_id: String, reply: Result<Basket, ApiError>) -> (r: Step)
        ensures
            steps_to(Waiting::Undoing { ean, item_id }, reply, r),
    {
        let rolled_back = match &reply {
            Ok(after) => find_by_id(&after.items, item_id.as_str()).is_none(),
            Err(_) => false,
        };
        let mut m = "K-Ruoka has no product with EAN ".to_owned();
        m.append(ean.as_str());
        if rolled_back {
            m.append("; nothing was added.");
        } else {
            m.append(
                ". It was added to the cart as \"Unknown product\" and could not be removed again -- call remove_from_cart with item_id=",
            );
            m.append(item_id.as_str());
            m.append(".");
        }
        fail(ApiError::InvalidRequest(m))
    }

    fn set_in(basket: Basket, item_id: String, amount: Amount, unit: Option<String>) -> (r: Step)
        ensures
            sets_in(basket, item_id, amount, unit, r),
    {
        let unit = match find_item(&basket, item_id.as_str()) {
            Ok(item) => match unit {
                Some(unit) => unit,
                None => item.amount_info.unit.clone(),
            },
            Err(e) => {
                return fail(e);
            },
        };
        let event = BasketEvent::SetItemAmount {
            item_id: item_id.clone(),
            value: AmountInfo { amount: amount.clone(), unit },
        };
        change(basket.id.as_str(), event, Waiting::AmountSet { item_id, wanted: amount })
    }
}

/// How many more requests an operation can ask for, at most.
pub open spec fn requests_left(w: Waiting) -> nat {
    match w {
        Waiting::Adding { .. } => 2,
        Waiting::Added { .. } | Waiting::Mutating { .. } => 1,
        Waiting::Setting { .. } | Waiting::Removing { .. } => 1,
        _ => 0,
    }
}

/// The request reads or changes a basket, and nothing else.
pub open spec fn is_basket_request(q: RequestView) -> bool {
    ||| q.method == "POST"@ && q.path == "/kr-api/basket/active"@
    ||| q.method == "PATCH"@ && text::begins_with(q.path, "/kr-api/basket/by-id/"@)
}

/// Every operation ends: each answer leaves fewer requests to ask for. Adding takes at most
/// three requests, every other change two, and nothing is asked for twice.
pub proof fn operations_end(w: Waiting, reply: Result<Basket, ApiError>, r: Step)
    requires
        steps_to(w, reply, r),
    ensures
        r matches Step::Send { request, next } ==> requests_left(next) < requests_left(w),
{
}

/// Nothing here can order or pay: every request that follows an answer changes a basket.
pub proof fn operations_stay_in_the_basket(w: Waiting, reply: Result<Basket, ApiError>, r: Step)
    requires
        steps_to(w, reply, r),
    ensures
        r matches Step::Send { request, next } ==> is_basket_request(request@),
{
    if let Step::Send { request, next } = r {
        if let Ok(basket) = reply {
            let head = "/kr-api/basket/by-id/"@;
            assert((head + basket.id@).subrange(0, head.len() as int) =~= head);
            assert(text::occurs_at(head + basket.id@, head, 0));
        }
    }
}

/// The first request of an operation reads the active basket.
pub proof fn operations_begin_in_the_basket(store_id: Seq<char>)
    ensures
        is_basket_request(active_view(store_id)),
{
}

/// A failed request ends the operation with that failure, in which only a turned-down
/// store id is put into other words. Undoing an add, which reports the unknown product
/// either way, is apart.
pub proof fn failures_end_the_operation(w: Waiting, e: ApiError, r: Step)
    requires
        !(w is Undoing),
        steps_to(w, Err(e), r),
    ensures
        r matches Step::Done(Err(x)) && (x@ == e@ || is_store_error(e@)),
{
}

/// Setting an amount succeeds only with a basket that shows it: the item with that amount,
/// with K-Ruoka's limit where more was wanted, or no such item where it was zero.
pub proof fn set_amount_succeeds_as_asked(
    store_id: String,
    item_id: String,
    amount: Amount,
    unit: Option<String>,
    read: Result<Basket, ApiError>,
    first: Step,
    changed: Result<Basket, ApiError>,
    last: Step,
    basket: Basket,
)
    requires
        steps_to(Waiting::Setting { store_id, item_id, amount, unit }, read, first),
        first matches Step::Send { request, next } && steps_to(next, changed, last),
        last.succeeds(basket),
    ensures
        changed == Ok::<Basket, ApiError>(basket),
        amount_taken(basket.items@, item_id@, amount),
{
}

/// Without a unit, an item is set in the unit that it has in the basket that was read.
pub proof fn set_amount_keeps_the_unit(
    store_id: String,
    item_id: String,
    amount: Amount,
    read: Basket,
    first: Step,
)
    requires
        steps_to(
            Waiting::Setting { store_id, item_id, amount, unit: None },
            Ok(read),
            first,
        ),
        with_id(read.items@, item_id@) is Some,
    ensures
        first matches Step::Send { request, next } && request@.body == types::events_view(
            seq![
                BasketEvent::SetItemAmount {
                    item_id,
                    value: AmountInfo {
                        amount,
                        unit: with_id(read.items@, item_id@)->0.amount_info.unit,
                    },
                },
            ],
        ),
{
}

/// Removing succeeds only with a basket in which no item has the id.
pub proof fn remove_succeeds_as_asked(
    store_id: String,
    item_id: String,
    read: Result<Basket, ApiError>,
    first: Step,
    changed: Result<Basket, ApiError>,
    last: Step,
    basket: Basket,
)
    requires
        steps_to(Waiting::Removing { store_id, item_id }, read, first),
        first matches Step::Send { request, next } && steps_to(next, changed, last),
        last.succeeds(basket),
    ensures
        changed == Ok::<Basket, ApiError>(basket),
        forall|i: int|
            0 <= i < basket.items@.len() ==> (#[trigger] basket.items@[i]).id@ != item_id@,
{
    with_id_finds(basket.items@, item_id@);
}

/// Adding succeeds only with a basket that holds the EAN as a product K-Ruoka knows.
pub proof fn add_succeeds_as_asked(
    store_id: String,
    ean: String,
    event: BasketEvent,
    read: Result<Basket, ApiError>,
    first: Step,
    changed: Result<Basket, ApiError>,
    last: Step,
    basket: Basket,
)
    requires
        steps_to(Waiting::Adding { store_id, ean, event }, read, first),
        first matches Step::Send { request, next } && steps_to(next, changed, last),
        last.succeeds(basket),
    ensures
        changed == Ok::<Basket, ApiError>(basket),
        with_ean(basket.items@, ean@) matches Some(item) && item.known(),
{
}

/// An unknown product is never a success: it is taken out of the basket it came back in,
/// and whatever the answer to that, the operation fails, saying that nothing was added
/// exactly where the answer shows that the item is gone.
pub proof fn unknown_products_are_undone(
    ean: String,
    basket: Basket,
    item: BasketItem,
    second: Step,
    undone: Result<Basket, ApiError>,
    last: Step,
)
    requires
        with_ean(basket.items@, ean@) == Some(item),
        !item.known(),
        steps_to(Waiting::Added { ean }, Ok(basket), second),
        second matches Step::Send { request, next } ==> steps_to(next, undone, last),
    ensures
        second matches Step::Send { request, next } && request@ == apply_view(
            basket.id@,
            seq![removal(item.id)],
        ),
        last matches Step::Done(Err(e)) && e@ == ErrorView::InvalidRequest(
            if undone is Ok && with_id(undone->Ok_0.items@, item.id@) is None {
                nothing_added(ean@)
            } else {
                left_behind(ean@, item.id@)
            },
        ),
{
}

/// The requests: which method, which path, and under which key the body names the store.
pub proof fn requests_go_where_they_belong(
    store_id: Seq<char>,
    basket_id: Seq<char>,
    events: Seq<BasketEvent>,
)
    ensures
        active_view(store_id).method == "POST"@,
        active_view(store_id).path == "/kr-api/basket/active"@,
        active_view(store_id).body == "{\"storeId\":"@ + json::quoted(store_id)
            + ",\"substitutionDefault\":true}"@,
        apply_view(basket_id, events).method == "PATCH"@,
        apply_view(basket_id, events).path == "/kr-api/basket/by-id/"@ + basket_id,
        apply_view(basket_id, events).body == types::events_view(events),
{
}

/// A request's view is what it holds: nothing of it is left out.
pub proof fn requests_are_viewed_whole(a: Request)
    ensures
        a@.method == a.method@,
        a@.path == a.path@,
        a@.body == a.body@,
{
}

/// Which quantities are zero, above zero and not below it, which are the same, and which of
/// them a cart keeps, goes by the bits of the doubles: both zeros are zero, what is not a
/// number is none of these, and a cart keeps the amount itself, or 999 where more was wanted.
pub proof fn quantities_go_by_their_bits(got: Amount, wanted: Amount)
    ensures
        ({
            let g = got.value.bits;
            let w = wanted.value.bits;
            let negative = 0x8000_0000_0000_0000u64;
            let infinite = 0x7ff0_0000_0000_0000u64;
            let limit = 0x408f_3800_0000_0000u64;
            &&& is_zero(wanted) <==> w == 0 || w == negative
            &&& is_positive(wanted) <==> 0 < w <= infinite
            &&& is_not_negative(wanted) <==> w <= infinite || w == negative
            &&& same_number(got, wanted) <==> (g == w && wanted.value.is_number()) || ((g == 0 || g
                == negative) && (w == 0 || w == negative))
            &&& keeps(got, wanted) <==> same_number(got, wanted) || (limit < w <= infinite && g
                == limit)
        }),
{
    amount::whole_numbers_are_their_doubles(got.value);
    amount::whole_numbers_are_their_doubles(wanted.value);
    amount::doubles_go_by_their_bits(got.value, wanted.value);
    amount::doubles_go_by_their_bits(wanted.value, got.value);
}

/// Reading the cart gives the basket that was answered, and a failure is passed on, with a
/// turned-down store named.
pub proof fn reading_gives_what_was_answered(
    store_id: String,
    reply: Result<Basket, ApiError>,
    r: Step,
)
    requires
        steps_to(Waiting::Active { store_id }, reply, r),
    ensures
        reply is Ok ==> r == Step::Done(reply),
        reply matches Err(e) ==> (r matches Step::Done(Err(x)) && x@ == clarified(e@, store_id@)),
{
}

/// Only a 422 that speaks of the store id is put into other words; every other error stays
/// as it is, and no error turns into one of another kind.
pub proof fn other_errors_stay_as_they_are(e: ErrorView, store_id: Seq<char>)
    ensures
        !(e matches ErrorView::Api { status, message } && status == 422 && text::occurs(
            message,
            "InvalidStoreIdError"@,
        )) ==> clarified(e, store_id) == e,
        e matches ErrorView::Api { status, message } && status == 422 && text::occurs(
            message,
            "InvalidStoreIdError"@,
        ) ==> (clarified(e, store_id) matches ErrorView::Api { status: s, message: m } && s == 422
            && m == "K-Ruoka rejected store id "@ + text::debug_quoted(store_id)
            + " as invalid. Store ids look like \"N137\"; use search_stores to find one."@),
{
}

/// A change of the cart is sent to the basket that was read, with the events that were asked
/// for, and what comes back is the result.
pub proof fn changes_go_to_the_basket_that_was_read(
    store_id: String,
    events: Vec<BasketEvent>,
    basket: Basket,
    first: Step,
    changed: Basket,
    last: Step,
)
    requires
        steps_to(Waiting::Mutating { store_id, events }, Ok(basket), first),
        first matches Step::Send { request, next } ==> steps_to(next, Ok(changed), last),
    ensures
        first matches Step::Send { request, next } && {
            &&& request.method@ == "PATCH"@
            &&& request.path@ == "/kr-api/basket/by-id/"@ + basket.id@
            &&& request.body@ == types::events_view(events@)
        },
        last == Step::Done(Ok(changed)),
{
}

/// Emptying the cart sends the one event that clears it, whatever the basket holds.
pub proof fn clearing_sends_one_event(
    store_id: String,
    events: Vec<BasketEvent>,
    basket: Basket,
    r: Step,
)
    requires
        events@ == seq![BasketEvent::ClearItems],
        steps_to(Waiting::Mutating { store_id, events }, Ok(basket), r),
    ensures
        r matches Step::Send { request, next } && request.method@ == "PATCH"@ && request.path@
            == "/kr-api/basket/by-id/"@ + basket.id@ && request.body@ == seq!['[']
            + "{\"type\":\"CLEAR-ITEMS\"}"@ + seq![']'],
{
    types::events_are_listed(Seq::empty(), BasketEvent::ClearItems);
}

/// Adding sends the one event that was made, to the basket that was read, and then looks for
/// the EAN that was asked for.
pub proof fn adding_sends_what_was_asked(
    store_id: String,
    ean: String,
    event: BasketEvent,
    basket: Basket,
    r: Step,
)
    requires
        steps_to(Waiting::Adding { store_id, ean, event }, Ok(basket), r),
    ensures
        r matches Step::Send { request, next } && {
            &&& request.method@ == "PATCH"@
            &&& request.path@ == "/kr-api/basket/by-id/"@ + basket.id@
            &&& request.body@ == seq!['['] + event.json_view() + seq![']']
            &&& next == (Waiting::Added { ean })
        },
{
    types::events_are_listed(Seq::empty(), event);
}

/// An answer to an add that holds the EAN anywhere is a success where the first item with it
/// has attributes, and is undone, item by its id, where it has none; one that does not hold
/// it is a failure that names it.
pub proof fn an_add_is_confirmed_by_the_basket(ean: String, basket: Basket, i: int, r: Step)
    requires
        steps_to(Waiting::Added { ean }, Ok(basket), r),
        0 <= i < basket.items@.len() ==> basket.items@[i].ean@ == ean@ && forall|j: int|
            0 <= j < i ==> (#[trigger] basket.items@[j]).ean@ != ean@,
        !(0 <= i < basket.items@.len()) ==> forall|j: int|
            0 <= j < basket.items@.len() ==> (#[trigger] basket.items@[j]).ean@ != ean@,
    ensures
        0 <= i < basket.items@.len() && basket.items@[i].product_details.attributes is Some ==> r
            == Step::Done(Ok(basket)),
        0 <= i < basket.items@.len() && basket.items@[i].product_details.attributes is None ==> (
        r matches Step::Send { request, next } && {
            &&& request.method@ == "PATCH"@
            &&& request.path@ == "/kr-api/basket/by-id/"@ + basket.id@
            &&& request.body@ == seq!['['] + ("{\"itemId\":"@ + json::quoted(
                basket.items@[i].id@,
            ) + ",\"type\":\"REMOVE-ITEM\"}"@) + seq![']']
            &&& next == (Waiting::Undoing { ean, item_id: basket.items@[i].id })
        }),
        !(0 <= i < basket.items@.len()) ==> (r matches Step::Done(Err(ApiError::Other(m)))
            && text::occurs(m@, ean@)),
{
    if 0 <= i < basket.items@.len() {
        the_first_is_found(basket.items@, ean@, i);
        types::events_are_listed(Seq::empty(), removal(basket.items@[i].id));
    } else {
        with_ean_finds(basket.items@, ean@);
        text::occurs_inside(
            "K-Ruoka accepted the add for EAN "@,
            ean@,
            " but the item is not in the cart it returned. Nothing was changed as far as can be told; check the cart."@,
        );
    }
}

/// An add that was undone is a refusal either way, which says that nothing was added exactly
/// where no item of the answer carries the id, and names the item that was left otherwise.
pub proof fn an_undone_add_is_told_as_it_is(
    ean: String,
    item_id: String,
    reply: Result<Basket, ApiError>,
    r: Step,
)
    requires
        steps_to(Waiting::Undoing { ean, item_id }, reply, r),
    ensures
        r matches Step::Done(Err(ApiError::InvalidRequest(m))) && {
            let gone = reply is Ok && forall|i: int|
                0 <= i < reply->Ok_0.items@.len() ==> (#[trigger] reply->Ok_0.items@[i]).id@
                    != item_id@;
            &&& text::occurs(m@, ean@)
            &&& gone ==> m@ == "K-Ruoka has no product with EAN "@ + ean@ + "; nothing was added."@
            &&& !gone ==> text::occurs(m@, item_id@) && m@
                == "K-Ruoka has no product with EAN "@ + ean@
                + ". It was added to the cart as \"Unknown product\" and could not be removed again -- call remove_from_cart with item_id="@
                + item_id@ + "."@
        },
{
    let lead = "K-Ruoka has no product with EAN "@;
    let middle =
        ". It was added to the cart as \"Unknown product\" and could not be removed again -- call remove_from_cart with item_id="@;
    if reply is Ok {
        with_id_finds(reply->Ok_0.items@, item_id@);
    }
    text::occurs_inside(lead, ean@, "; nothing was added."@);
    text::occurs_inside(lead, ean@, middle + item_id@ + "."@);
    assert(lead + ean@ + (middle + item_id@ + "."@) =~= lead + ean@ + middle + item_id@ + "."@);
    text::occurs_inside(lead + ean@ + middle, item_id@, "."@);
}

/// Setting an amount sends, to the basket that was read, the one event that carries the item
/// id and the amount as they were given, and the unit that was asked for, whichever it is, or
/// else the one that the first item with the id has. Then it looks for that very amount. An
/// item id that no item carries is refused, and nothing is sent.
pub proof fn setting_sends_the_unit_that_was_asked(
    store_id: String,
    item_id: String,
    amount: Amount,
    unit: Option<String>,
    basket: Basket,
    i: int,
    r: Step,
)
    requires
        steps_to(Waiting::Setting { store_id, item_id, amount, unit }, Ok(basket), r),
        0 <= i < basket.items@.len() ==> basket.items@[i].id@ == item_id@ && forall|j: int|
            0 <= j < i ==> (#[trigger] basket.items@[j]).id@ != item_id@,
        !(0 <= i < basket.items@.len()) ==> forall|j: int|
            0 <= j < basket.items@.len() ==> (#[trigger] basket.items@[j]).id@ != item_id@,
    ensures
        0 <= i < basket.items@.len() ==> (r matches Step::Send { request, next } && {
            let number = if amount.value.is_finite() {
                amount.json@
            } else {
                "null"@
            };
            let kept = if unit is Some {
                unit->0@
            } else {
                basket.items@[i].amount_info.unit@
            };
            &&& request.method@ == "PATCH"@
            &&& request.path@ == "/kr-api/basket/by-id/"@ + basket.id@
            &&& request.body@ == seq!['['] + ("{\"itemId\":"@ + json::quoted(item_id@)
                + ",\"type\":\"SET-ITEM-AMOUNT\",\"value\":"@ + ("{\"amount\":"@ + number
                + ",\"unit\":"@ + json::quoted(kept) + "}"@) + "}"@) + seq![']']
            &&& next == (Waiting::AmountSet { item_id, wanted: amount })
        }),
        !(0 <= i < basket.items@.len()) ==> r matches Step::Done(Err(ApiError::InvalidRequest(_))),
{
    if 0 <= i < basket.items@.len() {
        the_first_is_found(basket.items@, item_id@, i);
        let item = basket.items@[i];
        types::events_are_listed(Seq::empty(), setting(item, item_id, amount, unit));
    } else {
        with_id_finds(basket.items@, item_id@);
    }
}

/// A change of amount is a success, with the basket that came back, exactly where that
/// basket shows it: for an amount of zero that no item carries the id, for any other that the
/// first item with the id shows the same number, or 999 where more was wanted.
pub proof fn an_amount_is_confirmed_by_the_basket(
    item_id: String,
    wanted: Amount,
    after: Basket,
    i: int,
    r: Step,
)
    requires
        steps_to(Waiting::AmountSet { item_id, wanted }, Ok(after), r),
        0 <= i < after.items@.len() ==> after.items@[i].id@ == item_id@ && forall|j: int|
            0 <= j < i ==> (#[trigger] after.items@[j]).id@ != item_id@,
        !(0 <= i < after.items@.len()) ==> forall|j: int|
            0 <= j < after.items@.len() ==> (#[trigger] after.items@[j]).id@ != item_id@,
    ensures
        ({
            let w = wanted.value.bits;
            let zero = w == 0 || w == 0x8000_0000_0000_0000u64;
            let shown = if 0 <= i < after.items@.len() {
                let g = after.items@[i].amount_info.amount.value.bits;
                !zero && ((g == w && wanted.value.is_number()) || (0x408f_3800_0000_0000u64 < w
                    <= 0x7ff0_0000_0000_0000u64 && g == 0x408f_3800_0000_0000u64))
            } else {
                zero
            };
            &&& shown ==> r == Step::Done(Ok(after))
            &&& !shown ==> r matches Step::Done(Err(ApiError::Other(_)))
        }),
{
    if 0 <= i < after.items@.len() {
        the_first_is_found(after.items@, item_id@, i);
        quantities_go_by_their_bits(after.items@[i].amount_info.amount, wanted);
    } else {
        with_id_finds(after.items@, item_id@);
        quantities_go_by_their_bits(wanted, wanted);
    }
}

/// What a change of amount that did not take is told with: the item, the amount that was
/// wanted where it was not zero, and the one that is shown where there is one.
pub proof fn a_missed_amount_is_told(items: Seq<BasketItem>, item_id: Seq<char>, wanted: Amount)
    ensures
        text::occurs(amount_complaint(items, item_id, wanted), item_id),
        !is_zero(wanted) ==> text::occurs(
            amount_complaint(items, item_id, wanted),
            wanted.shown@,
        ),
        with_id(items, item_id) matches Some(item) ==> text::occurs(
            amount_complaint(items, item_id, wanted),
            item.amount_info.amount.shown@,
        ),
{
    let m = amount_complaint(items, item_id, wanted);
    match with_id(items, item_id) {
        None => {
            let a = "K-Ruoka accepted setting item "@;
            let b = " to "@;
            let c =
                " but the item is not in the cart it returned. Something else probably removed it at the same time; call get_cart to see the current state."@;
            text::occurs_inside(a, item_id, b + wanted.shown@ + c);
            assert(a + item_id + (b + wanted.shown@ + c) =~= m);
            text::occurs_inside(a + item_id + b, wanted.shown@, c);
        },
        Some(item) => {
            let got = item.amount_info.amount.shown@;
            if is_zero(wanted) {
                let a = "asked K-Ruoka to remove item "@;
                let b = " (amount 0) but it is still in the cart it returned, with amount "@;
                text::occurs_inside(a, item_id, b + got + "."@);
                assert(a + item_id + (b + got + "."@) =~= m);
                text::occurs_inside(a + item_id + b, got, "."@);
            } else {
                let a = "asked K-Ruoka to set item "@;
                let b = " to "@;
                let c = " but the cart it returned shows "@;
                let w = wanted.shown@;
                text::occurs_inside(a, item_id, b + w + c + got + "."@);
                assert(a + item_id + (b + w + c + got + "."@) =~= m);
                text::occurs_inside(a + item_id + b, w, c + got + "."@);
                assert(a + item_id + b + w + (c + got + "."@) =~= m);
                text::occurs_inside(a + item_id + b + w + c, got, "."@);
            }
        },
    }
}

/// Removing sends, to the basket that was read, the one event that carries the item id as it
/// was given, where some item, at any place, carries it, and then looks for that very id;
/// where none does it is refused, and nothing is sent.
pub proof fn removing_takes_the_item_that_was_named(
    store_id: String,
    item_id: String,
    basket: Basket,
    r: Step,
)
    requires
        steps_to(Waiting::Removing { store_id, item_id }, Ok(basket), r),
    ensures
        (exists|i: int| 0 <= i < basket.items@.len() && (#[trigger] basket.items@[i]).id@ == item_id@)
            ==> (r matches Step::Send { request, next } && {
            &&& request.method@ == "PATCH"@
            &&& request.path@ == "/kr-api/basket/by-id/"@ + basket.id@
            &&& request.body@ == seq!['['] + ("{\"itemId\":"@ + json::quoted(item_id@)
                + ",\"type\":\"REMOVE-ITEM\"}"@) + seq![']']
            &&& next == (Waiting::Removed { item_id })
        }),
        (forall|i: int|
            0 <= i < basket.items@.len() ==> (#[trigger] basket.items@[i]).id@ != item_id@)
            ==> r matches Step::Done(Err(ApiError::InvalidRequest(_))),
{
    with_id_finds(basket.items@, item_id@);
    types::events_are_listed(Seq::empty(), removal(item_id));
}

/// A removal is a success, with the basket that came back, exactly where no item of it
/// carries the id; otherwise it fails, and names the item.
pub proof fn a_removal_is_confirmed_by_the_basket(item_id: String, after: Basket, r: Step)
    requires
        steps_to(Waiting::Removed { item_id }, Ok(after), r),
    ensures
        (forall|i: int|
            0 <= i < after.items@.len() ==> (#[trigger] after.items@[i]).id@ != item_id@) ==> r
            == Step::Done(Ok(after)),
        (exists|i: int| 0 <= i < after.items@.len() && (#[trigger] after.items@[i]).id@ == item_id@)
            ==> (r matches Step::Done(Err(ApiError::Other(m))) && text::occurs(m@, item_id@)),
{
    with_id_finds(after.items@, item_id@);
    text::occurs_inside(
        "K-Ruoka accepted removing item "@,
        item_id@,
        " but it is still in the cart it returned. Call get_cart to see the current state."@,
    );
}

/// A failure of the first request of an operation is passed on with a turned-down store
/// named, and one of a later request as it is; nothing else is sent.
pub proof fn failures_are_passed_on(w: Waiting, e: ApiError, r: Step)
    requires
        steps_to(w, Err(e), r),
    ensures
        w matches Waiting::Active { store_id } ==> (r matches Step::Done(Err(x)) && x@ == clarified(
            e@,
            store_id@,
        )),
        w matches Waiting::Mutating { store_id, .. } ==> (r matches Step::Done(Err(x)) && x@
            == clarified(e@, store_id@)),
        w matches Waiting::Adding { store_id, .. } ==> (r matches Step::Done(Err(x)) && x@
            == clarified(e@, store_id@)),
        w matches Waiting::Setting { store_id, .. } ==> (r matches Step::Done(Err(x)) && x@
            == clarified(e@, store_id@)),
        w matches Waiting::Removing { store_id, .. } ==> (r matches Step::Done(Err(x)) && x@
            == clarified(e@, store_id@)),
        w is Applied || w is Added || w is AmountSet || w is Removed ==> (r matches Step::Done(
            Err(x),
        ) && x@ == e@),
{
}

/// What is refused before anything is sent names the quantity that was given.
pub proof fn refused_quantities_are_named(shown: Seq<char>)
    ensures
        text::occurs(adds_nothing(shown), shown),
        text::occurs(below_zero(shown), shown),
{
    text::occurs_inside(
        "quantity must be greater than 0 (got "@,
        shown,
        "). K-Ruoka would accept this and add nothing while reporting success."@,
    );
    text::occurs_inside(
        "quantity cannot be negative (got "@,
        shown,
        "). Use 0 to remove the item."@,
    );
}

/// The steps are what they are called: a success is the basket, a failure the error, and a
/// request is what is asked for.
pub proof fn steps_are_what_they_say(r: Step, basket: Basket, e: ErrorView, q: RequestView, w: Waiting)
    ensures
        r.succeeds(basket) <==> r == Step::Done(Ok(basket)),
        r.fails(e) <==> (r matches Step::Done(Err(x)) && x@ == e),
        r.asks(q, w) <==> (r matches Step::Send { request, next } && request.method@ == q.method
            && request.path@ == q.path && request.body@ == q.body && next == w),
{
}

} // verus!
