//! Building a query: validation of the submitted code and construction of
//! the request URL.

use crate::render::spec_empty_input_text;
use vstd::prelude::*;

verus! {

/// What a submitted IATA code leads to.
pub enum SubmitAction {
    /// The code was empty: show this text, and issue no request.
    Reject(String),
    /// The code was non-empty: start a polling session.
    Start,
}

/// Decide what to do with a submitted IATA code.  An empty code is
/// rejected with the literal text asking for a valid code, and no request
/// is issued for it; any non-empty code starts a polling session.
pub fn submit_action(iata_code: &str) -> (action: SubmitAction)
    ensures
        iata_code@.len() == 0 ==> (action matches SubmitAction::Reject(m) && m@
            == spec_empty_input_text()),
        iata_code@.len() > 0 ==> action matches SubmitAction::Start,
{
    if iata_code.is_empty() {
        SubmitAction::Reject("Please enter a valid IATA code".to_owned())
    } else {
        SubmitAction::Start
    }
}

/// The request URL for one query: the endpoint, then the API key and the
/// flight code as query parameters.
pub open spec fn spec_request_url(endpoint: Seq<char>, key: Seq<char>, code: Seq<char>) -> Seq<
    char,
> {
    endpoint + "?access_key="@ + key + "&flight_iata="@ + code
}

/// Build the request URL for one query.
pub fn request_url(endpoint: &str, api_key: &str, iata_code: &str) -> (url: String)
    ensures
        url@ == spec_request_url(endpoint@, api_key@, iata_code@),
{
    let mut url: String = endpoint.to_owned();
    url.append("?access_key=");
    url.append(api_key);
    url.append("&flight_iata=");
    url.append(iata_code);
    url
}

} // verus!
