//! Settings of the base-chain watcher.

use vstd::prelude::*;
use vstd::string::StringSliceAdditionalSpecFns;
use crate::decimal::{decimal_value, parse_decimal};

verus! {

/// Relies on `std::time::Duration::from_millis`: a span of `ms` milliseconds.
#[verifier::external_body]
fn duration_from_millis(ms: u64) -> std::time::Duration {
    std::time::Duration::from_millis(ms)
}

/// Settings of the base-chain watcher.
#[derive(Clone, Debug, PartialEq, Eq)]
pub struct ATPWatchConfig {
    /// Confirmations a priority operation needs before it is processed.
    pub confirmations_for_atp_event: u64,
    /// How often the base-chain node is polled, in milliseconds.
    pub atp_node_poll_interval: u64,
}

impl ATPWatchConfig {
    /// Builds the settings from the texts of `ATP_WATCH_CONFIRMATIONS_FOR_ATP_EVENT`
    /// and `ATP_WATCH_ATP_NODE_POLL_INTERVAL`; `None` unless both are decimal
    /// numbers of 64 bits.
    pub fn from_env(confirmations_for_atp_event: &str, atp_node_poll_interval: &str) -> (r: Option<ATPWatchConfig>)
        ensures
            r is Some <==> decimal_value(confirmations_for_atp_event.spec_bytes(), u64::MAX as nat) is Some
                && decimal_value(atp_node_poll_interval.spec_bytes(), u64::MAX as nat) is Some,
            r is Some ==> r->Some_0.confirmations_for_atp_event as nat == decimal_value(confirmations_for_atp_event.spec_bytes(), u64::MAX as nat)->Some_0
                && r->Some_0.atp_node_poll_interval as nat == decimal_value(atp_node_poll_interval.spec_bytes(), u64::MAX as nat)->Some_0,
    {
        let confirmations = match parse_decimal(confirmations_for_atp_event.as_bytes(), u64::MAX) {
            Some(v) => v,
            None => return None,
        };
        let interval = match parse_decimal(atp_node_poll_interval.as_bytes(), u64::MAX) {
            Some(v) => v,
            None => return None,
        };
        Some(ATPWatchConfig { confirmations_for_atp_event: confirmations, atp_node_poll_interval: interval })
    }

    /// The poll interval as a `Duration`.
    pub fn poll_interval(&self) -> std::time::Duration {
        duration_from_millis(self.atp_node_poll_interval)
    }
}

} // verus!
