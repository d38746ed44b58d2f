use dynosaur::record_updater::cloudflare::{
    construct_dns_create_request, construct_record_api_url, construct_records_api_url,
    plan_update, DnsCreateRequest, DnsRecord, DnsRecordsResponse, HttpbinIpFetcherError,
    WritePlan, DEFAULT_RECORD_TTL,
};
use dynosaur::record_updater::SubjectRecord;

fn record(id: &str, name: &str, content: &str) -> DnsRecord {
    DnsRecord {
        id: id.to_string(),
        name: name.to_string(),
        content: content.to_string(),
    }
}

fn listing(records: Vec<DnsRecord>) -> DnsRecordsResponse {
    DnsRecordsResponse {
        result: records,
        success: true,
    }
}

fn request(typ: &str, name: &str, content: &str, ttl: u64) -> DnsCreateRequest {
    DnsCreateRequest {
        typ: typ.to_string(),
        name: name.to_string(),
        content: content.to_string(),
        ttl,
    }
}

#[test]
fn subject_record_keeps_its_fields() {
    let subject = SubjectRecord::new("AAAA", "home.example.com", Some(120));
    assert_eq!(subject.get_record_type(), "AAAA");
    assert_eq!(subject.get_record_name(), "home.example.com");
    assert_eq!(subject.get_ttl(), Some(120));
}

#[test]
fn zero_records_create_one_with_default_ttl() {
    let subject = SubjectRecord::new("A", "home.example.com", None);
    let plan = plan_update(&listing(vec![]), "1.2.3.4", &subject);
    assert_eq!(
        plan,
        Ok(WritePlan::Create(request("A", "home.example.com", "1.2.3.4", 1)))
    );
    assert_eq!(DEFAULT_RECORD_TTL, 1);
}

#[test]
fn zero_records_create_one_with_configured_ttl() {
    let subject = SubjectRecord::new("A", "home.example.com", Some(300));
    let plan = plan_update(&listing(vec![]), "1.2.3.4", &subject);
    assert_eq!(
        plan,
        Ok(WritePlan::Create(request("A", "home.example.com", "1.2.3.4", 300)))
    );
}

#[test]
fn single_record_with_same_content_is_left_alone() {
    let subject = SubjectRecord::new("A", "home.example.com", None);
    let resp = listing(vec![record("rec-1", "home.example.com", "1.2.3.4")]);
    assert_eq!(plan_update(&resp, "1.2.3.4", &subject), Ok(WritePlan::Unchanged));
}

#[test]
fn single_record_with_other_content_is_updated_in_place() {
    let subject = SubjectRecord::new("A", "home.example.com", Some(60));
    let resp = listing(vec![record("rec-1", "home.example.com", "1.2.3.4")]);
    assert_eq!(
        plan_update(&resp, "5.6.7.8", &subject),
        Ok(WritePlan::Update(
            "rec-1".to_string(),
            request("A", "home.example.com", "5.6.7.8", 60)
        ))
    );
}

#[test]
fn ipv6_content_is_compared_as_text() {
    let subject = SubjectRecord::new("AAAA", "home.example.com", None);
    let resp = listing(vec![record("rec-6", "home.example.com", "0:0:0:0:0:0:0:1")]);
    assert_eq!(
        plan_update(&resp, "::1", &subject),
        Ok(WritePlan::Update(
            "rec-6".to_string(),
            request("AAAA", "home.example.com", "::1", 1)
        ))
    );
}

#[test]
fn two_records_are_ambiguous() {
    let subject = SubjectRecord::new("A", "home.example.com", None);
    let resp = listing(vec![
        record("rec-1", "home.example.com", "1.2.3.4"),
        record("rec-2", "home.example.com", "1.2.3.4"),
    ]);
    assert_eq!(
        plan_update(&resp, "1.2.3.4", &subject),
        Err(HttpbinIpFetcherError::AmbiguousDNSRecords(
            "home.example.com".to_string(),
            "A".to_string()
        ))
    );
}

#[test]
fn three_records_are_ambiguous() {
    let subject = SubjectRecord::new("AAAA", "v6.example.com", None);
    let resp = listing(vec![
        record("a", "v6.example.com", "::1"),
        record("b", "v6.example.com", "::2"),
        record("c", "v6.example.com", "::3"),
    ]);
    assert_eq!(
        plan_update(&resp, "::4", &subject),
        Err(HttpbinIpFetcherError::AmbiguousDNSRecords(
            "v6.example.com".to_string(),
            "AAAA".to_string()
        ))
    );
}

#[test]
fn failed_listing_is_a_retrieval_error() {
    let subject = SubjectRecord::new("A", "home.example.com", None);
    let resp = DnsRecordsResponse {
        result: vec![],
        success: false,
    };
    assert_eq!(
        plan_update(&resp, "1.2.3.4", &subject),
        Err(HttpbinIpFetcherError::DNSRecordRetrievalFailed)
    );
}

#[test]
fn records_url_names_the_zone() {
    assert_eq!(
        construct_records_api_url("zone123"),
        "https://api.cloudflare.com/client/v4/zones/zone123/dns_records"
    );
}

#[test]
fn record_url_names_the_record() {
    assert_eq!(
        construct_record_api_url("zone123", "rec-9"),
        "https://api.cloudflare.com/client/v4/zones/zone123/dns_records/rec-9"
    );
}

#[test]
fn create_request_carries_subject_and_content() {
    let subject = SubjectRecord::new("AAAA", "v6.example.com", Some(3600));
    assert_eq!(
        construct_dns_create_request("2001:db8::1", &subject),
        request("AAAA", "v6.example.com", "2001:db8::1", 3600)
    );
}
