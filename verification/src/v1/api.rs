//! The client handle from which the groups of operations are reached.
use vstd::prelude::*;

verus! {

/// Where requests go and the key that authorises them. The handle holds no
/// connection: whoever sends a request reads both from here.
#[derive(Clone, Debug, PartialEq, Eq)]
pub struct Client {
    pub base_url: String,
    pub api_key: String,
}

} // verus!
