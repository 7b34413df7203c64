use vstd::prelude::*;
use vstd::string::*;

verus! {

/// How a request is sent.
#[derive(Clone, Copy, Debug, PartialEq, Eq, Structural)]
pub enum HttpMethod {
    Get,
    Post,
}

/// The request that asks an engine for a query: the method, the address,
/// and for a form the value of its field `q`.
#[derive(Debug)]
pub struct SearchRequest {
    pub method: HttpMethod,
    pub url: String,
    pub form_query: Option<String>,
}

/// A request whose query is part of the address.
pub fn get_request(prefix: &str, query: &str) -> (r: SearchRequest)
    ensures
        r.method == HttpMethod::Get,
        r.url@ == prefix@ + query@,
        r.form_query is None,
{
    let mut url = String::from_str(prefix);
    url.append(query);
    SearchRequest { method: HttpMethod::Get, url, form_query: None }
}

/// A request whose query travels in a form.
pub fn form_request(url: &str, query: &str) -> (r: SearchRequest)
    ensures
        r.method == HttpMethod::Post,
        r.url@ == url@,
        r.form_query matches Some(q) && q@ == query@,
{
    SearchRequest {
        method: HttpMethod::Post,
        url: String::from_str(url),
        form_query: Some(String::from_str(query)),
    }
}

} // verus!
