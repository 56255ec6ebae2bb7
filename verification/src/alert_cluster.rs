//! A collection of alert signals carried from analysis to notification.
//! The raw statistical signal is set first, then constrained by a gating
//! predicate; the final cluster says whether a notification should fire.

use vstd::prelude::*;

verus! {

/// The finished decision of one analysis pass.
pub struct AlertCluster {
    /// True when a volume spike was detected and survived its gating filter.
    pub is_volume_spike: bool,
}

/// Builder for [`AlertCluster`]: set each raw signal, then filter it, then
/// build. Further signal kinds would follow the same set-then-filter shape.
pub struct AlertClusterBuilder {
    is_volume_spike: bool,
}

impl AlertClusterBuilder {
    /// The volume-spike signal as currently set on the builder.
    pub closed spec fn spec_volume_spike(&self) -> bool {
        self.is_volume_spike
    }

    /// A builder with every signal off.
    pub fn new() -> (r: Self)
        ensures
            !r.spec_volume_spike(),
    {
        AlertClusterBuilder { is_volume_spike: false }
    }

    /// Records the raw volume-spike signal.
    pub fn set_is_volume_spike(self, is_volume_spike: bool) -> (r: Self)
        ensures
            r.spec_volume_spike() == is_volume_spike,
    {
        let mut next = self;
        next.is_volume_spike = is_volume_spike;
        next
    }

    /// Constrains the volume-spike signal: unless the gating condition
    /// holds, the signal is forced off.
    pub fn filter_volume_spike(self, is_alert_fireable: bool) -> (r: Self)
        ensures
            r.spec_volume_spike() == (self.spec_volume_spike() && is_alert_fireable),
    {
        let mut next = self;
        next.is_volume_spike = next.is_volume_spike && is_alert_fireable;
        next
    }

    /// Finishes the cluster with the signals as filtered.
    pub fn build(self) -> (r: AlertCluster)
        ensures
            r.is_volume_spike == self.spec_volume_spike(),
    {
        AlertCluster { is_volume_spike: self.is_volume_spike }
    }
}

impl AlertCluster {
    /// Whether a notification should be sent for this cluster.
    pub fn is_alert_fireable(&self) -> (r: bool)
        ensures
            r == self.is_volume_spike,
    {
        self.is_volume_spike
    }
}

} // verus!
