use vstd::prelude::*;

pub mod daemon;
pub mod ip_fetcher;
pub mod record_updater;

verus! {

} // verus!
