//! What the control loop is configured with.
use vstd::prelude::*;
use crate::denylist::DenylistConfig;
use crate::format::Destination;

verus! {

/// The cadences of the loop, and how long an announcement is remembered,
/// all in seconds.
#[derive(Clone, Copy, Debug, PartialEq, Eq)]
pub struct IntervalConfig {
    pub post_ttl: u64,
    pub fetch_interval: u64,
    pub post_interval: u64,
}

/// Credentials of a Twitter account: an OAuth consumer key pair and an
/// access key pair.
#[derive(Clone, Debug)]
pub struct TwitterToken {
    pub consumer_key: String,
    pub consumer_secret: String,
    pub access_key: String,
    pub access_secret: String,
}

/// The configuration of the control loop: its cadences, its exclusion
/// rules, and the destinations that are configured, in the order in which
/// each item is published to them.
#[derive(Clone, Debug)]
pub struct Config {
    pub interval: IntervalConfig,
    pub denylist: DenylistConfig,
    pub destinations: Vec<Destination>,
}

} // verus!
