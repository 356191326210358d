//! The server's addresses: a fixed local listing endpoint, and one detail
//! endpoint per collection below it.

use vstd::prelude::*;

verus! {

/// The listing endpoint.
pub const COLLECTIONS_URL: &'static str = "http://localhost:6333/collections";

/// The detail endpoint of collection `name`: the listing endpoint, a slash,
/// and the name as it is.
pub fn detail_url(name: &str) -> (r: String)
    ensures
        r@ == COLLECTIONS_URL@ + "/"@ + name@,
{
    let mut url = String::from_str(COLLECTIONS_URL);
    url.append("/");
    url.append(name);
    url
}

} // verus!
