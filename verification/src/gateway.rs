use vstd::prelude::*;

verus! {

/// The address the gateway forwards a request to: the service's host, then
/// the request's path with its query (or the bare path when it has none).
pub open spec fn proxy_target(service: Seq<char>, path: Seq<char>, path_and_query: Option<Seq<char>>) -> Seq<char> {
    "http://"@ + service + match path_and_query {
        Some(pq) => pq,
        None => path,
    }
}

/// Builds the forwarding address for a request tagged with `service`.
pub fn proxy_uri(service: &str, path: &str, path_and_query: Option<&str>) -> (uri: String)
    ensures
        uri@ == proxy_target(service@, path@, match path_and_query {
            Some(pq) => Some(pq@),
            None => None,
        }),
{
    let base = String::from_str("http://").concat(service);
    match path_and_query {
        Some(pq) => base.concat(pq),
        None => base.concat(path),
    }
}

} // verus!
