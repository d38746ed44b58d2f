use vstd::prelude::*;

pub mod cloudflare;

verus! {

/// The DNS record that the daemon keeps current: its type (`A`, `AAAA`, ...),
/// its fully qualified name, and the TTL in whole seconds to write with it
/// (`None`: the provider's default).
pub struct SubjectRecord {
    record_type: String,
    record_name: String,
    ttl: Option<u64>,
}

impl SubjectRecord {
    pub closed spec fn record_type_view(&self) -> Seq<char> {
        self.record_type@
    }

    pub closed spec fn record_name_view(&self) -> Seq<char> {
        self.record_name@
    }

    pub closed spec fn ttl_view(&self) -> Option<u64> {
        self.ttl
    }

    pub fn new(record_type: &str, record_name: &str, ttl: Option<u64>) -> (r: Self)
        ensures
            r.record_type_view() == record_type@,
            r.record_name_view() == record_name@,
            r.ttl_view() == ttl,
    {
        SubjectRecord {
            record_type: record_type.to_owned(),
            record_name: record_name.to_owned(),
            ttl,
        }
    }

    pub fn get_record_type(&self) -> (r: &String)
        ensures
            r@ == self.record_type_view(),
    {
        &self.record_type
    }

    pub fn get_record_name(&self) -> (r: &String)
        ensures
            r@ == self.record_name_view(),
    {
        &self.record_name
    }

    pub fn get_ttl(&self) -> (r: Option<u64>)
        ensures
            r == self.ttl_view(),
    {
        self.ttl
    }
}

} // verus!
