use vstd::prelude::*;

use crate::record_updater::SubjectRecord;

verus! {

/// TTL, in seconds, written when the subject record names none; Cloudflare
/// reads 1 as "automatic".
pub const DEFAULT_RECORD_TTL: u64 = 1;

/// Why reconciling with Cloudflare failed before any write was made.
#[derive(Debug, PartialEq, Eq)]
pub enum HttpbinIpFetcherError {
    /// Two or more records match the record name (first field) and type
    /// (second field); the daemon never picks one of them.
    AmbiguousDNSRecords(String, String),
    /// The record listing answered with `success: false`.
    DNSRecordRetrievalFailed,
}

/// One DNS record as the provider lists it.
#[derive(Debug, PartialEq, Eq)]
pub struct DnsRecord {
    pub id: String,
    pub name: String,
    pub content: String,
}

/// The provider's answer to a record query by type and name.
#[derive(Debug, PartialEq, Eq)]
pub struct DnsRecordsResponse {
    pub result: Vec<DnsRecord>,
    pub success: bool,
}

/// The body of a create or update call.
#[derive(Debug, PartialEq, Eq)]
pub struct DnsCreateRequest {
    pub typ: String,
    pub name: String,
    pub content: String,
    pub ttl: u64,
}

/// The single write (or none) that brings the provider's record set in line
/// with the target address.
#[derive(Debug, PartialEq, Eq)]
pub enum WritePlan {
    /// No record exists: create one.
    Create(DnsCreateRequest),
    /// One record exists with other content: overwrite the record whose id is
    /// the first field.
    Update(String, DnsCreateRequest),
    /// One record exists and already holds the target content.
    Unchanged,
}

pub open spec fn ttl_or_default(ttl: Option<u64>) -> u64 {
    match ttl {
        Some(t) => t,
        None => DEFAULT_RECORD_TTL,
    }
}

/// `req` writes `content` into the subject's record, with the subject's TTL.
pub open spec fn is_request_for(req: DnsCreateRequest, content: Seq<char>, subject: SubjectRecord) -> bool {
    &&& req.typ@ == subject.record_type_view()
    &&& req.name@ == subject.record_name_view()
    &&& req.content@ == content
    &&& req.ttl == ttl_or_default(subject.ttl_view())
}

pub open spec fn records_api_url(zone_id: Seq<char>) -> Seq<char> {
    "https://api.cloudflare.com/client/v4/zones/"@ + zone_id + "/dns_records"@
}

/// The endpoint that lists and creates the DNS records of a zone.
pub fn construct_records_api_url(zone_id: &str) -> (r: String)
    ensures
        r@ == records_api_url(zone_id@),
{
    let mut url = String::from_str("https://api.cloudflare.com/client/v4/zones/");
    url.append(zone_id);
    url.append("/dns_records");
    url
}

/// The endpoint of one DNS record of a zone.
pub fn construct_record_api_url(zone_id: &str, record_id: &str) -> (r: String)
    ensures
        r@ == records_api_url(zone_id@) + "/"@ + record_id@,
{
    let mut url = construct_records_api_url(zone_id);
    url.append("/");
    url.append(record_id);
    url
}

/// The body that points the subject's record at `content`.
pub fn construct_dns_create_request(content: &str, subject: &SubjectRecord) -> (r: DnsCreateRequest)
    ensures
        is_request_for(r, content@, *subject),
{
    let ttl = match subject.get_ttl() {
        Some(t) => t,
        None => DEFAULT_RECORD_TTL,
    };
    DnsCreateRequest {
        typ: subject.get_record_type().clone(),
        name: subject.get_record_name().clone(),
        content: content.to_owned(),
        ttl,
    }
}

/// Decides the write that points the subject's record at `content` (the
/// target address in text form), from what the provider listed for the
/// record's type and name.
pub fn plan_update(resp: &DnsRecordsResponse, content: &str, subject: &SubjectRecord) -> (r: Result<WritePlan, HttpbinIpFetcherError>)
    ensures
        !resp.success <==> r == Err::<WritePlan, HttpbinIpFetcherError>(HttpbinIpFetcherError::DNSRecordRetrievalFailed),
        resp.success && resp.result@.len() == 0 ==> match r {
            Ok(WritePlan::Create(req)) => is_request_for(req, content@, *subject),
            _ => false,
        },
        resp.success && resp.result@.len() == 1 && resp.result@[0].content@ == content@
            ==> r matches Ok(WritePlan::Unchanged),
        resp.success && resp.result@.len() == 1 && resp.result@[0].content@ != content@
            ==> match r {
            Ok(WritePlan::Update(id, req)) => id@ == resp.result@[0].id@ && is_request_for(req, content@, *subject),
            _ => false,
        },
        resp.success && resp.result@.len() >= 2 ==> match r {
            Err(HttpbinIpFetcherError::AmbiguousDNSRecords(name, typ)) =>
                name@ == subject.record_name_view() && typ@ == subject.record_type_view(),
            _ => false,
        },
{
    if !resp.success {
        return Err(HttpbinIpFetcherError::DNSRecordRetrievalFailed);
    }
    let n = resp.result.len();
    if n == 0 {
        Ok(WritePlan::Create(construct_dns_create_request(content, subject)))
    } else if n == 1 {
        let existing = &resp.result[0];
        let target = content.to_owned();
        if existing.content == target {
            Ok(WritePlan::Unchanged)
        } else {
            Ok(WritePlan::Update(existing.id.clone(), construct_dns_create_request(content, subject)))
        }
    } else {
        Err(HttpbinIpFetcherError::AmbiguousDNSRecords(
            subject.get_record_name().clone(),
            subject.get_record_type().clone(),
        ))
    }
}

} // verus!
