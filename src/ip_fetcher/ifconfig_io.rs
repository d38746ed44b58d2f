use vstd::prelude::*;

use crate::ip_fetcher::IpAddress;

verus! {

/// Why ifconfig.io's answer gave no address.
#[derive(Debug, PartialEq, Eq)]
pub enum IfconfigIoIpFetcherError {
    /// The body (the field, as received) is not an IP address.
    MalformedIpAddress(String),
}

/// The outcome of a fetch from the response body and what parsing it as an
/// IP address gave.
pub fn interpret_body(body: String, parsed: Option<IpAddress>) -> (r: Result<IpAddress, IfconfigIoIpFetcherError>)
    ensures
        match parsed {
            Some(ip) => r == Ok::<IpAddress, IfconfigIoIpFetcherError>(ip),
            None => r == Err::<IpAddress, IfconfigIoIpFetcherError>(IfconfigIoIpFetcherError::MalformedIpAddress(body)),
        },
{
    match parsed {
        Some(ip) => Ok(ip),
        None => Err(IfconfigIoIpFetcherError::MalformedIpAddress(body)),
    }
}

} // verus!
