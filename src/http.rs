use vstd::prelude::*;
use vstd::string::*;

verus! {

/// The base address every request is sent to.
pub const HOSTNAME: &'static str = "https://dummyjson.com";

/// The text that precedes a transport error in the response area.
pub open spec fn failure_prefix() -> Seq<char> {
    seq!['R', 'e', 'q', 'u', 'e', 's', 't', ' ', 'f', 'a', 'i', 'l', 'e', 'd', ':', ' ']
}

/// The address a request with this route is sent to.
pub fn request_url(hostname: &str, route: &str) -> (r: String)
    ensures
        r@ == hostname@ + route@,
{
    let mut url = String::from_str(hostname);
    url.append(route);
    url
}

/// The text shown for the outcome of sending a request: the response body,
/// or the transport error behind a short notice.
pub fn response_text(outcome: Result<String, String>) -> (r: String)
    ensures
        match outcome {
            Ok(body) => r@ == body@,
            Err(e) => r@ == failure_prefix() + e@,
        },
{
    match outcome {
        Ok(body) => body,
        Err(e) => {
            proof {
                reveal_strlit("Request failed: ");
            }
            let mut text = String::from_str("Request failed: ");
            text.append(e.as_str());
            text
        },
    }
}

} // verus!
