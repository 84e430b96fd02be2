use vstd::prelude::*;

verus! {

/// Credentials for the remote API: an order id and an api key.
///
/// The pair is immutable once constructed and is passed to the server as two
/// plain query parameters (`orderid` and `signature`); no signing computation
/// is performed.
pub struct Auth {
    order_id: String,
    api_key: String,
}

impl Auth {
    /// The order id as a sequence of characters.
    pub closed spec fn spec_order_id(&self) -> Seq<char> {
        self.order_id@
    }

    /// The api key as a sequence of characters.
    pub closed spec fn spec_api_key(&self) -> Seq<char> {
        self.api_key@
    }

    /// Construct credentials from the caller-supplied order id and api key.
    pub fn new(order_id: &str, api_key: &str) -> (a: Auth)
        ensures
            a.spec_order_id() == order_id@,
            a.spec_api_key() == api_key@,
    {
        Auth { order_id: order_id.to_owned(), api_key: api_key.to_owned() }
    }

    /// A copy of the order id.
    pub fn get_order_id(&self) -> (r: String)
        ensures
            r@ == self.spec_order_id(),
    {
        self.order_id.clone()
    }

    /// A copy of the api key.
    pub fn get_api_key(&self) -> (r: String)
        ensures
            r@ == self.spec_api_key(),
    {
        self.api_key.clone()
    }
}

} // verus!
