//! The HTTP requests that the service sends to the identity platform, as
//! plain values: method, URL, headers and urlencoded form fields.

use vstd::prelude::*;

verus! {

/// An HTTP method.
pub enum Method {
    Get,
    Post,
}

/// An HTTP request: method, URL, headers (name, value) and form fields
/// (name, value), the form being sent urlencoded where it is not empty.
pub struct HttpRequest {
    pub method: Method,
    pub url: String,
    pub headers: Vec<(String, String)>,
    pub form: Vec<(String, String)>,
}

/// The text of each name and value of `pairs`, in order.
pub open spec fn pairs_view(pairs: Seq<(String, String)>) -> Seq<(Seq<char>, Seq<char>)> {
    pairs.map_values(|p: (String, String)| (p.0@, p.1@))
}

} // verus!
