//! OmaPlussa-edut: the account's personalised Plussa offers.

use crate::browser::basket::{Request, RequestView};
use crate::browser::error::{ApiError, ErrorView};
use crate::json;
use vstd::prelude::*;

verus! {

/// The request for the personal offers at a store.
pub open spec fn offers_view(store_id: Seq<char>) -> RequestView {
    RequestView {
        method: "POST"@,
        path: "/kr-api/tos-offers"@,
        body: "{\"storeId\":"@ + json::quoted(store_id) + "}"@,
    }
}

/// The store id stays a text of the request: it is read back as itself where it stands.
pub proof fn store_id_stays_a_text(store_id: Seq<char>)
    ensures
        json::read_literal(
            offers_view(store_id).body.skip("{\"storeId\":"@.len() as int),
        ) == Some((store_id, "}"@)),
{
    json::quoted_reads_back_inside("{\"storeId\":"@, store_id, "}"@);
}

/// The account's personal offers.
pub struct Offers;

impl Offers {
    /// Ask for the account's personal offers at a store. They are limited in time, so the
    /// answer is not to be kept. An anonymous session gets an empty list, not an error.
    pub fn personal_offers(store_id: &str) -> (r: Request)
        ensures
            r@ == offers_view(store_id@),
    {
        let mut body = "{\"storeId\":".to_owned();
        let id = json::quote(store_id);
        body.append(id.as_str());
        body.append("}");
        Request { method: "POST", path: "/kr-api/tos-offers".to_owned(), body }
    }

    /// The answer has a shape of its own.
    pub fn unexpected_shape(reason: &str) -> (r: ApiError)
        ensures
            r@ == ErrorView::Other("unexpected tos-offers shape: "@ + reason@),
    {
        let mut m = "unexpected tos-offers shape: ".to_owned();
        m.append(reason);
        ApiError::Other(m)
    }
}

/// The offers are asked for under a path of their own, by the store alone.
pub proof fn offers_are_asked_for_by_store(store_id: Seq<char>)
    ensures
        offers_view(store_id).method == "POST"@,
        offers_view(store_id).path == "/kr-api/tos-offers"@,
        offers_view(store_id).body == "{\"storeId\":"@ + json::quoted(store_id) + "}"@,
{
}

} // verus!
