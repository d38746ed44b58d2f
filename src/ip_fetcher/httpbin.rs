use vstd::prelude::*;

use crate::ip_fetcher::IpAddress;

verus! {

/// Why httpbin's answer gave no address.
#[derive(Debug, PartialEq, Eq)]
pub enum HttpbinIpFetcherError {
    /// The JSON object has no `origin` property.
    MissingOriginProperty,
    /// The `origin` property (the field) is not an IP address.
    MalformedIpAddress(String),
}

/// The value of the first property named `key`, if any.
pub open spec fn property_value(fields: Seq<(String, String)>, key: Seq<char>) -> Option<Seq<char>>
    decreases fields.len(),
{
    if fields.len() == 0 {
        None
    } else if fields[0].0@ == key {
        Some(fields[0].1@)
    } else {
        property_value(fields.drop_first(), key)
    }
}

/// Finds the `origin` property among the fields of httpbin's JSON answer.
pub fn origin_property(fields: &Vec<(String, String)>) -> (r: Result<String, HttpbinIpFetcherError>)
    ensures
        match r {
            Ok(v) => property_value(fields@, "origin"@) == Some(v@),
            Err(e) => property_value(fields@, "origin"@) is None
                && e == HttpbinIpFetcherError::MissingOriginProperty,
        },
{
    let key = String::from_str("origin");
    let mut i: usize = 0;
    assert(fields@.subrange(0, fields@.len() as int) =~= fields@);
    while i < fields.len()
        invariant
            i <= fields@.len(),
            key@ == "origin"@,
            property_value(fields@, "origin"@) == property_value(fields@.subrange(i as int, fields@.len() as int), "origin"@),
        decreases fields@.len() - i,
    {
        let ghost rest = fields@.subrange(i as int, fields@.len() as int);
        assert(rest.drop_first() =~= fields@.subrange(i + 1, fields@.len() as int));
        if fields[i].0 == key {
            return Ok(fields[i].1.clone());
        }
        i = i + 1;
    }
    Err(HttpbinIpFetcherError::MissingOriginProperty)
}

/// The outcome of a fetch from the `origin` text and what parsing it as an
/// IP address gave.
pub fn interpret_origin(origin: String, parsed: Option<IpAddress>) -> (r: Result<IpAddress, HttpbinIpFetcherError>)
    ensures
        match parsed {
            Some(ip) => r == Ok::<IpAddress, HttpbinIpFetcherError>(ip),
            None => r == Err::<IpAddress, HttpbinIpFetcherError>(HttpbinIpFetcherError::MalformedIpAddress(origin)),
        },
{
    match parsed {
        Some(ip) => Ok(ip),
        None => Err(HttpbinIpFetcherError::MalformedIpAddress(origin)),
    }
}

} // verus!
