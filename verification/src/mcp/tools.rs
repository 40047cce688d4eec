//! The cart tools: what their arguments come to, and what they answer.

use crate::amount::Amount;
use crate::browser::basket::{self, Cart, Step, Waiting};
use crate::browser::error::{self, ApiError, ErrorView};
use crate::login::DEFAULT_PROBE_STORE;
use crate::types::{AmountInfo, Basket, BasketEvent, CartView, NewItem, DEFAULT_UNIT};
use crate::{amount, json, text};
use vstd::prelude::*;

verus! {

/// The arguments of the tools that only take a store.
#[derive(Debug)]
pub struct StoreArg {
    pub store_id: Option<String>,
}

/// The arguments of `set_default_store`.
#[derive(Debug)]
pub struct SetDefaultStoreArg {
    pub store_id: String,
}

/// What `set_default_store` answers.
#[derive(Debug)]
pub struct DefaultStoreStatus {
    pub default_store: String,
}

/// The debugging port, unless told otherwise. The same as the `login` command's.
pub const DEFAULT_DEBUG_PORT: u16 = 9222;

/// The arguments of `start_login`.
#[derive(Debug)]
pub struct StartLoginArg {
    pub port: Option<u16>,
}

impl StartLoginArg {
    /// The debugging port that is asked for.
    pub fn debug_port(&self) -> (r: u16)
        ensures
            r == (match self.port {
                Some(port) => port,
                None => DEFAULT_DEBUG_PORT,
            }),
    {
        match self.port {
            Some(port) => port,
            None => DEFAULT_DEBUG_PORT,
        }
    }
}

/// The arguments of `search_products`, a tool of the catalogue. None is served here.
#[derive(Debug)]
pub struct SearchProductsArg {
    pub store_id: Option<String>,
    pub query: String,
    pub limit: Option<u32>,
}

/// The arguments of `search_stores`, a tool of the catalogue. None is served here.
#[derive(Debug)]
pub struct SearchStoresArg {
    pub query: String,
    pub limit: Option<u32>,
}

/// The arguments of `add_to_cart`.
#[derive(Debug)]
pub struct AddArg {
    pub store_id: Option<String>,
    pub ean: String,
    /// The resulting quantity, not an increment; one, unless told otherwise.
    pub quantity: Option<Amount>,
    /// Pieces, unless told otherwise.
    pub unit: Option<String>,
    /// Only for store-local products.
    pub local_store_id: Option<String>,
    /// Allowed, unless told otherwise.
    pub allow_substitutes: Option<bool>,
}

/// The arguments of `update_cart_item`.
#[derive(Debug)]
pub struct UpdateArg {
    pub store_id: Option<String>,
    pub item_id: String,
    /// The new quantity; zero removes the item.
    pub quantity: Amount,
    /// The unit that the item has, unless told otherwise.
    pub unit: Option<String>,
}

/// The arguments of `remove_from_cart`.
#[derive(Debug)]
pub struct RemoveArg {
    pub store_id: Option<String>,
    pub item_id: String,
}

/// The arguments of `auth_status`. Any store reports the same account, and whoever asks may
/// have none to hand.
#[derive(Debug)]
pub struct AuthArg {
    pub store_id: Option<String>,
}

/// What `auth_status` answers.
#[derive(Debug)]
pub struct AuthStatus {
    pub logged_in: bool,
    /// The signed-in account, when there is one.
    pub account: Option<String>,
    pub detail: String,
}

/// A failure that the model is meant to read and act on: it is answered as content, not as
/// an error of the protocol, which a client might swallow.
#[derive(Debug)]
pub struct ToolFailure(pub String);

/// What an error says to whoever called a tool.
pub open spec fn failure_view(e: ErrorView) -> Seq<char> {
    match e {
        ErrorView::AuthExpired =>
            "The K-Plussa session has expired. Run `k-ruoka-mcp login` in a terminal on the machine hosting this server, then retry. The stored profile was left untouched."@,
        other => other.words(),
    }
}

/// What an error says to whoever called a tool. An expired session names its remedy; every
/// other error speaks for itself.
pub fn to_tool_failure(e: ApiError) -> (r: ToolFailure)
    ensures
        r.0@ == failure_view(e@),
{
    match e {
        ApiError::AuthExpired => ToolFailure(
            "The K-Plussa session has expired. Run `k-ruoka-mcp login` in a terminal on the machine hosting this server, then retry. The stored profile was left untouched.".to_owned(),
        ),
        other => ToolFailure(other.describe()),
    }
}

/// What is said where no login can be driven.
pub fn login_unavailable() -> (r: ToolFailure)
    ensures
        r.0@
            == "This server cannot drive an interactive login. Run `k-ruoka-mcp login` in a terminal on the machine hosting it instead."@,
{
    ToolFailure(
        "This server cannot drive an interactive login. Run `k-ruoka-mcp login` in a terminal on the machine hosting it instead.".to_owned(),
    )
}

/// The store that a text names: what stands in it without the white space around, where
/// anything does.
pub open spec fn store_in(t: Option<&str>) -> Option<Seq<char>> {
    match t {
        Some(t) => if text::is_blank(t@) {
            None
        } else {
            Some(text::trimmed(t@))
        },
        None => None,
    }
}

/// The default store that a file holds, given its contents where it could be read.
pub fn read_default_store(contents: Option<&str>) -> (r: Option<String>)
    ensures
        error::opt_view(r) == store_in(contents),
{
    match contents {
        Some(t) => {
            proof {
                text::trimmed_empty_iff_blank(t@);
            }
            let store = text::trim(t);
            if store.is_empty() {
                None
            } else {
                Some(store.to_owned())
            }
        },
        None => None,
    }
}

/// What is said where no store is given and none was set.
pub open spec fn no_store() -> Seq<char> {
    "No store_id provided and no default store has been set. Call set_default_store first, or pass store_id explicitly."@
}

/// The part of the server that remembers: the default store.
#[derive(Debug)]
pub struct CartServer {
    pub default_store: Option<String>,
}

impl CartServer {
    /// The store that a call is about: the one it names, or else the default.
    pub open spec fn store_for(&self, provided: Option<String>) -> Option<String> {
        match provided {
            Some(id) => Some(id),
            None => self.default_store,
        }
    }

    pub fn new() -> (r: CartServer)
        ensures
            r.default_store is None,
    {
        CartServer { default_store: None }
    }

    /// Take up the default store that was kept: what the file holds, or else what
    /// `K_RUOKA_DEFAULT_STORE` names.
    pub fn with_default_store(self, file: Option<&str>, variable: Option<&str>) -> (r: CartServer)
        ensures
            match (store_in(file), store_in(variable)) {
                (Some(store), _) => r.default_store matches Some(s) && s@ == store,
                (None, Some(store)) => r.default_store matches Some(s) && s@ == store,
                (None, None) => r.default_store == self.default_store,
            },
    {
        if let Some(store) = read_default_store(file) {
            return CartServer { default_store: Some(store) };
        }
        if let Some(store) = read_default_store(variable) {
            return CartServer { default_store: Some(store) };
        }
        self
    }

    /// Resolve a store id: the given one, or else the default, or else a failure that says
    /// what to do.
    pub fn resolve_store(&self, provided: Option<String>) -> (r: Result<String, ToolFailure>)
        ensures
            match self.store_for(provided) {
                Some(id) => r == Ok::<String, ToolFailure>(id),
                None => r matches Err(f) && f.0@ == no_store(),
            },
    {
        match provided {
            Some(id) => Ok(id),
            None => match &self.default_store {
                Some(id) => Ok(id.clone()),
                None => Err(
                    ToolFailure(
                        "No store_id provided and no default store has been set. Call set_default_store first, or pass store_id explicitly.".to_owned(),
                    ),
                ),
            },
        }
    }

    /// Set the default store. The answer names it; the same is what is to be kept.
    pub fn set_default_store(&mut self, arg: SetDefaultStoreArg) -> (r: DefaultStoreStatus)
        ensures
            final(self).default_store == Some(arg.store_id),
            r.default_store == arg.store_id,
    {
        self.default_store = Some(arg.store_id.clone());
        DefaultStoreStatus { default_store: arg.store_id }
    }

    /// Read the cart.
    pub fn get_cart(&self, arg: StoreArg) -> (r: Result<Step, ToolFailure>)
        ensures
            match self.store_for(arg.store_id) {
                Some(id) => r matches Ok(step) && step.asks(
                    basket::active_view(id@),
                    Waiting::Active { store_id: id },
                ),
                None => r matches Err(f) && f.0@ == no_store(),
            },
    {
        match self.resolve_store(arg.store_id) {
            Ok(id) => Ok(Cart::active(id)),
            Err(f) => Err(f),
        }
    }

    /// Put a product into the cart: one piece, which the store may substitute, unless told
    /// otherwise.
    pub fn add_to_cart(&self, arg: AddArg) -> (r: Result<Step, ToolFailure>)
        ensures
            match self.store_for(arg.store_id) {
                Some(id) => r matches Ok(step) && adds(arg, id, step),
                None => r matches Err(f) && f.0@ == no_store(),
            },
    {
        match self.resolve_store(arg.store_id) {
            Ok(id) => {
                let quantity = match arg.quantity {
                    Some(quantity) => quantity,
                    None => Amount::one(),
                };
                let unit = match arg.unit {
                    Some(unit) => unit,
                    None => DEFAULT_UNIT.to_owned(),
                };
                let allow = match arg.allow_substitutes {
                    Some(allow) => allow,
                    None => true,
                };
                let step = Cart::add(id, arg.ean, quantity, unit, arg.local_store_id, allow);
                proof {
                    assert(add_defaults(arg, quantity, unit, allow));
                }
                Ok(step)
            },
            Err(f) => Err(f),
        }
    }

    /// Set the quantity of an item.
    pub fn update_cart_item(&self, arg: UpdateArg) -> (r: Result<Step, ToolFailure>)
        ensures
            match self.store_for(arg.store_id) {
                Some(id) => r matches Ok(step) && if basket::is_not_negative(arg.quantity) {
                    step.asks(
                        basket::active_view(id@),
                        Waiting::Setting {
                            store_id: id,
                            item_id: arg.item_id,
                            amount: arg.quantity,
                            unit: arg.unit,
                        },
                    )
                } else {
                    step.fails(
                        ErrorView::InvalidRequest(basket::below_zero(arg.quantity.shown@)),
                    )
                },
                None => r matches Err(f) && f.0@ == no_store(),
            },
    {
        match self.resolve_store(arg.store_id) {
            Ok(id) => Ok(Cart::set_amount(id, arg.item_id, arg.quantity, arg.unit)),
            Err(f) => Err(f),
        }
    }

    /// Remove an item.
    pub fn remove_from_cart(&self, arg: RemoveArg) -> (r: Result<Step, ToolFailure>)
        ensures
            match self.store_for(arg.store_id) {
                Some(id) => r matches Ok(step) && step.asks(
                    basket::active_view(id@),
                    Waiting::Removing { store_id: id, item_id: arg.item_id },
                ),
                None => r matches Err(f) && f.0@ == no_store(),
            },
    {
        match self.resolve_store(arg.store_id) {
            Ok(id) => Ok(Cart::remove(id, arg.item_id)),
            Err(f) => Err(f),
        }
    }

    /// Remove every item.
    pub fn clear_cart(&self, arg: StoreArg) -> (r: Result<Step, ToolFailure>)
        ensures
            match self.store_for(arg.store_id) {
                Some(id) => r matches Ok(Step::Send { request, next: Waiting::Mutating {
                    store_id,
                    events,
                } }) && request@ == basket::active_view(id@) && store_id == id && events@
                    == seq![BasketEvent::ClearItems],
                None => r matches Err(f) && f.0@ == no_store(),
            },
    {
        match self.resolve_store(arg.store_id) {
            Ok(id) => Ok(Cart::clear(id)),
            Err(f) => Err(f),
        }
    }

    /// What a cart operation's result is to whoever called the tool.
    pub fn answer(result: Result<Basket, ApiError>) -> (r: Result<CartView, ToolFailure>)
        ensures
            match result {
                Ok(basket) => r matches Ok(view) && view.shows(basket),
                Err(e) => r matches Err(f) && f.0@ == failure_view(e@),
            },
    {
        match result {
            Ok(basket) => Ok(CartView::from(basket)),
            Err(e) => Err(to_tool_failure(e)),
        }
    }

    /// The store that is asked for the account: the one that is named, or else the default,
    /// or else any.
    pub fn auth_store(&self, arg: AuthArg) -> (r: String)
        ensures
            match self.store_for(arg.store_id) {
                Some(id) => r == id,
                None => r@ == DEFAULT_PROBE_STORE@,
            },
    {
        match arg.store_id {
            Some(id) => id,
            None => match &self.default_store {
                Some(id) => id.clone(),
                None => DEFAULT_PROBE_STORE.to_owned(),
            },
        }
    }

    /// Whether the session is signed in, given the answer for the active basket. That there
    /// is an answer says nothing: an anonymous session gets a valid basket too.
    pub fn auth_status(result: Result<Basket, ApiError>) -> (r: Result<AuthStatus, ToolFailure>)
        ensures
            match result {
                Ok(basket) => match basket.user_info.account() {
                    Some(who) => r matches Ok(s) && s.logged_in && error::opt_view(s.account)
                        == Some(who) && s.detail@ == "Signed in as "@ + who + "."@,
                    None => r matches Ok(s) && !s.logged_in && s.account is None && s.detail@
                        == anonymous_detail(),
                },
                Err(ApiError::AuthExpired) => r matches Ok(s) && !s.logged_in && s.account is None
                    && s.detail@ == expired_detail(),
                Err(e) => r matches Err(f) && f.0@ == failure_view(e@),
            },
    {
        match result {
            Ok(basket) => match basket.user_info.display() {
                Some(who) => {
                    let mut detail = "Signed in as ".to_owned();
                    detail.append(who.as_str());
                    detail.append(".");
                    Ok(AuthStatus { logged_in: true, account: Some(who), detail })
                },
                None => Ok(
                    AuthStatus {
                        logged_in: false,
                        account: None,
                        detail:
                            "Not signed in. The cart reachable right now is an anonymous one, not the account's. Run `k-ruoka-mcp login` on the machine hosting this server.".to_owned(),
                    },
                ),
            },
            Err(e) => match e {
                ApiError::AuthExpired => Ok(
                    AuthStatus {
                        logged_in: false,
                        account: None,
                        detail:
                            "The K-Plussa session has expired. Run `k-ruoka-mcp login` again.".to_owned(),
                    },
                ),
                other => Err(to_tool_failure(other)),
            },
        }
    }
}

/// What is said of an anonymous session.
pub open spec fn anonymous_detail() -> Seq<char> {
    "Not signed in. The cart reachable right now is an anonymous one, not the account's. Run `k-ruoka-mcp login` on the machine hosting this server."@
}

/// What is said of an expired session.
pub open spec fn expired_detail() -> Seq<char> {
    "The K-Plussa session has expired. Run `k-ruoka-mcp login` again."@
}

/// The quantity, the unit and the substitution that an add comes to.
pub open spec fn add_defaults(arg: AddArg, quantity: Amount, unit: String, allow: bool) -> bool {
    &&& match arg.quantity {
        Some(q) => quantity == q,
        None => quantity.value.is_finite() && quantity.value.value() == amount::whole(1)
            && quantity.shown@ == "1"@ && quantity.json@ == "1.0"@,
    }
    &&& match arg.unit {
        Some(u) => unit == u,
        None => unit@ == DEFAULT_UNIT@,
    }
    &&& allow == (match arg.allow_substitutes {
        Some(a) => a,
        None => true,
    })
}

/// `step` begins to add what `arg` asks for to the cart of a store.
pub open spec fn adds(arg: AddArg, store_id: String, step: Step) -> bool {
    exists|quantity: Amount, unit: String, allow: bool|
        {
            &&& #[trigger] add_defaults(arg, quantity, unit, allow)
            &&& if !basket::is_positive(quantity) {
                step.fails(ErrorView::InvalidRequest(basket::adds_nothing(quantity.shown@)))
            } else if text::is_blank(arg.ean@) {
                step.fails(ErrorView::InvalidRequest(basket::empty_ean()))
            } else {
                step.asks(
                    basket::active_view(store_id@),
                    Waiting::Adding {
                        store_id,
                        ean: arg.ean,
                        event: BasketEvent::AddItem {
                            item: NewItem {
                                ean: arg.ean,
                                local_store_id: arg.local_store_id,
                                allow_substitutes: allow,
                                amount_info: AmountInfo { amount: quantity, unit },
                            },
                        },
                    },
                )
            }
        }
}

/// A call that names a store is about that store, whatever the default; one that names none
/// is about the default.
pub proof fn default_store_is_a_fallback(server: CartServer, id: String)
    ensures
        server.store_for(Some(id)) == Some(id),
        server.store_for(None) == server.default_store,
{
}

/// A default store that was kept comes back as it was, whatever else is set. Store ids have
/// no white space around them.
pub proof fn kept_store_comes_back(id: &str)
    requires
        text::trimmed(id@) == id@,
        id@.len() > 0,
    ensures
        store_in(Some(id)) == Some(id@),
{
    text::trimmed_empty_iff_blank(id@);
}

/// An expired session tells its caller to sign in again, and every other error is told in its
/// own words.
pub proof fn failures_are_told(e: ErrorView)
    ensures
        e is AuthExpired ==> text::occurs(failure_view(e), "k-ruoka-mcp login"@),
        !(e is AuthExpired) ==> failure_view(e) == e.words(),
        text::occurs(anonymous_detail(), "k-ruoka-mcp login"@),
        text::occurs(expired_detail(), "k-ruoka-mcp login"@),
        text::occurs(no_store(), "set_default_store"@),
{
    reveal_strlit("k-ruoka-mcp login");
    reveal_strlit(
        "The K-Plussa session has expired. Run `k-ruoka-mcp login` in a terminal on the machine hosting this server, then retry. The stored profile was left untouched.",
    );
    reveal_strlit(
        "Not signed in. The cart reachable right now is an anonymous one, not the account's. Run `k-ruoka-mcp login` on the machine hosting this server.",
    );
    reveal_strlit("The K-Plussa session has expired. Run `k-ruoka-mcp login` again.");
    reveal_strlit("set_default_store");
    reveal_strlit(
        "No store_id provided and no default store has been set. Call set_default_store first, or pass store_id explicitly.",
    );
    let how = "k-ruoka-mcp login"@;
    let expired = failure_view(ErrorView::AuthExpired);
    assert(expired.subrange(39, 39 + how.len() as int) =~= how);
    assert(text::occurs_at(expired, how, 39));
    assert(anonymous_detail().subrange(89, 89 + how.len() as int) =~= how);
    assert(text::occurs_at(anonymous_detail(), how, 89));
    assert(expired_detail().subrange(39, 39 + how.len() as int) =~= how);
    assert(text::occurs_at(expired_detail(), how, 39));
    let set = "set_default_store"@;
    assert(no_store().subrange(61, 61 + set.len() as int) =~= set);
    assert(text::occurs_at(no_store(), set, 61));
}

/// A text names a store exactly where it holds anything but white space, and names it without
/// the white space around.
pub proof fn a_store_is_what_is_not_white(t: &str)
    ensures
        store_in(None) is None,
        store_in(Some(t)) is Some <==> exists|i: int|
            0 <= i < t@.len() && !text::is_white(#[trigger] t@[i]),
        store_in(Some(t)) matches Some(store) ==> store == text::trimmed(t@) && store.len() > 0,
{
    text::trimmed_empty_iff_blank(t@);
}

/// Adding begins with a read of the cart of the store, and carries what was asked for and
/// nothing else: the EAN, the local store, the quantity or else one, the unit or else pieces,
/// and the substitution or else that it is allowed. A quantity that is no number above zero,
/// and an EAN of white space, are refused before anything is sent.
pub proof fn adding_carries_what_was_asked(arg: AddArg, id: String, step: Step)
    requires
        adds(arg, id, step),
    ensures
        ({
            let positive = arg.quantity matches Some(q) ==> 0 < q.value.bits
                <= 0x7ff0_0000_0000_0000u64;
            let named = exists|i: int|
                0 <= i < arg.ean@.len() && !text::is_white(#[trigger] arg.ean@[i]);
            &&& !positive || !named ==> (step matches Step::Done(Err(ApiError::InvalidRequest(_))))
            &&& positive && named ==> (step matches Step::Send {
                request,
                next: Waiting::Adding { store_id, ean, event: BasketEvent::AddItem { item } },
            } && {
                &&& request.method@ == "POST"@
                &&& request.path@ == "/kr-api/basket/active"@
                &&& request.body@ == "{\"storeId\":"@ + json::quoted(id@)
                    + ",\"substitutionDefault\":true}"@
                &&& store_id == id
                &&& ean == arg.ean
                &&& item.ean == arg.ean
                &&& item.local_store_id == arg.local_store_id
                &&& arg.allow_substitutes matches Some(a) ==> item.allow_substitutes == a
                &&& arg.allow_substitutes is None ==> item.allow_substitutes
                &&& arg.quantity matches Some(q) ==> item.amount_info.amount == q
                &&& arg.quantity is None ==> item.amount_info.amount.value.bits
                    == 0x3ff0_0000_0000_0000u64 && item.amount_info.amount.shown@ == "1"@
                    && item.amount_info.amount.json@ == "1.0"@
                &&& arg.unit matches Some(u) ==> item.amount_info.unit == u
                &&& arg.unit is None ==> item.amount_info.unit@ == "kpl"@
            })
        }),
{
    let (quantity, unit, allow) = choose|quantity: Amount, unit: String, allow: bool|
        {
            &&& #[trigger] add_defaults(arg, quantity, unit, allow)
            &&& if !basket::is_positive(quantity) {
                step.fails(ErrorView::InvalidRequest(basket::adds_nothing(quantity.shown@)))
            } else if text::is_blank(arg.ean@) {
                step.fails(ErrorView::InvalidRequest(basket::empty_ean()))
            } else {
                step.asks(
                    basket::active_view(id@),
                    Waiting::Adding {
                        store_id: id,
                        ean: arg.ean,
                        event: BasketEvent::AddItem {
                            item: NewItem {
                                ean: arg.ean,
                                local_store_id: arg.local_store_id,
                                allow_substitutes: allow,
                                amount_info: AmountInfo { amount: quantity, unit },
                            },
                        },
                    },
                )
            }
        };
    basket::quantities_go_by_their_bits(quantity, quantity);
    amount::one_is_its_double(quantity.value);
}

} // verus!
