//! The client side of the upstream booking engine.
//!
//! One call to the provider is one address to read and one answer to judge.
//! The library composes the address and judges the answer; whoever owns the
//! network sends the single read in between, without retry and without cache,
//! and reports what came of it as an [`UpstreamOutcome`].

use vstd::prelude::*;
use crate::model::PropertyRatesResult;

verus! {

/// How the transport failed.
#[derive(Clone, Copy, Debug, PartialEq, Eq, Structural)]
pub enum NetworkFailure {
    /// The provider could not be reached, or the connection broke.
    Connection,
    /// The bounded wait for the provider's answer expired.
    Timeout,
    /// The read was abandoned because the caller went away.
    Cancelled,
}

/// What came of the one outbound read.
#[derive(Clone, Debug, PartialEq, Eq)]
pub enum UpstreamOutcome {
    /// No answer was received.
    Failed(NetworkFailure),
    /// An answer was received whose body is not a list of property results.
    Malformed,
    /// The decoded body, in the provider's order.
    Decoded(Vec<PropertyRatesResult>),
}

/// Why a fetch yields no property result.
#[derive(Clone, Copy, Debug, PartialEq, Eq, Structural)]
pub enum FetchError {
    /// The transport failed.
    Network(NetworkFailure),
    /// The body does not conform to the provider's schema.
    Decode,
    /// The body is a well-formed list without any element.
    Empty,
}

/// The address of a property's rates for a window of dates:
/// `{base_url}/{property_id}/rates.json?start_date={start_date}&end_date={end_date}`.
pub open spec fn request_url_text(
    base_url: Seq<char>,
    property_id: Seq<char>,
    start_date: Seq<char>,
    end_date: Seq<char>,
) -> Seq<char> {
    base_url + "/"@ + property_id + "/rates.json"@ + "?start_date="@ + start_date + "&end_date="@
        + end_date
}

/// The verdict on an outcome: the first decoded element is authoritative and
/// later ones are ignored; any other outcome is its error.
pub open spec fn accepted(outcome: UpstreamOutcome) -> Result<PropertyRatesResult, FetchError> {
    match outcome {
        UpstreamOutcome::Failed(cause) => Err(FetchError::Network(cause)),
        UpstreamOutcome::Malformed => Err(FetchError::Decode),
        UpstreamOutcome::Decoded(results) => if results@.len() == 0 {
            Err(FetchError::Empty)
        } else {
            Ok(results@[0])
        },
    }
}

/// Access to one provider, configured with the address its properties live under.
#[derive(Clone, Debug, PartialEq, Eq)]
pub struct RateProviderClient {
    pub base_url: String,
}

impl RateProviderClient {
    /// A client for the provider at `base_url`.
    pub fn new(base_url: String) -> (client: RateProviderClient)
        ensures
            client.base_url@ == base_url@,
    {
        RateProviderClient { base_url }
    }

    /// The address to read for a property and a window of dates. The dates go
    /// into the query as they are.
    pub fn request_url(&self, property_id: &str, start_date: &str, end_date: &str) -> (url: String)
        ensures
            url@ == request_url_text(self.base_url@, property_id@, start_date@, end_date@),
    {
        let mut url = self.base_url.clone();
        url.append("/");
        url.append(property_id);
        url.append("/rates.json");
        url.append("?start_date=");
        url.append(start_date);
        url.append("&end_date=");
        url.append(end_date);
        url
    }

    /// Judges what came of the read: the first property result, or the error.
    pub fn accept(outcome: UpstreamOutcome) -> (verdict: Result<PropertyRatesResult, FetchError>)
        ensures
            verdict == accepted(outcome),
    {
        match outcome {
            UpstreamOutcome::Failed(cause) => Err(FetchError::Network(cause)),
            UpstreamOutcome::Malformed => Err(FetchError::Decode),
            UpstreamOutcome::Decoded(results) => {
                let mut results = results;
                if results.len() == 0 {
                    Err(FetchError::Empty)
                } else {
                    Ok(results.swap_remove(0))
                }
            },
        }
    }
}

} // verus!
