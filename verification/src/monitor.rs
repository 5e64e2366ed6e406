//! The update monitor's per-notification pipeline: count the
//! notification, validate each of the six samples, and emit the exact
//! list of sink writes. The bus reads themselves happen outside; this
//! module receives the resolved samples and decides everything else.

use vstd::prelude::*;
use crate::reading::{spec_validate, validate, FieldKind, Verdict};

verus! {

/// Counts location-update notifications received over the process
/// lifetime. Never reset, in particular not on reconnection.
#[derive(Debug, Clone, Copy, PartialEq, Eq, Structural)]
pub struct UpdateTracker {
    pub received_updates: u64,
}

impl UpdateTracker {
    /// A fresh tracker with no updates counted.
    pub fn new() -> (r: UpdateTracker)
        ensures
            r.received_updates == 0,
    {
        UpdateTracker { received_updates: 0 }
    }

    /// Counts one more notification.
    pub fn record_update(&mut self)
        requires
            old(self).received_updates < u64::MAX,
        ensures
            final(self).received_updates == old(self).received_updates + 1,
    {
        self.received_updates = self.received_updates + 1;
    }
}

/// One notification resolved into its six raw samples, each the bit
/// pattern of a double as the remote service reported it.
#[derive(Debug, Clone, Copy, PartialEq, Eq, Structural)]
pub struct RawReading {
    pub latitude: u64,
    pub longitude: u64,
    pub accuracy: u64,
    pub altitude: u64,
    pub speed: u64,
    pub heading: u64,
}

/// One instruction to the metrics sink.
#[derive(Debug, Clone, Copy, PartialEq, Eq, Structural)]
pub enum GaugeWrite {
    /// Set the field's gauge to the sample with this bit pattern.
    Sample(FieldKind, u64),
    /// Set the update-counter gauge to this count.
    UpdateCount(u64),
    /// Record that location data has been available at least once.
    DataAvailable,
}

/// The writes one validated sample contributes: the sample itself if it
/// is accepted, and for latitude additionally the data-available mark.
pub open spec fn spec_field_writes(f: FieldKind, bits: u64) -> Seq<GaugeWrite> {
    if spec_validate(f, bits) is Accepted {
        if f is Latitude {
            seq![GaugeWrite::Sample(f, bits), GaugeWrite::DataAvailable]
        } else {
            seq![GaugeWrite::Sample(f, bits)]
        }
    } else {
        Seq::empty()
    }
}

/// All validation writes of one resolved reading: the accepted samples
/// in the fixed field order.
pub open spec fn spec_reading_writes(r: RawReading) -> Seq<GaugeWrite> {
    spec_field_writes(FieldKind::Latitude, r.latitude) + spec_field_writes(
        FieldKind::Longitude,
        r.longitude,
    ) + spec_field_writes(FieldKind::Accuracy, r.accuracy) + spec_field_writes(
        FieldKind::Altitude,
        r.altitude,
    ) + spec_field_writes(FieldKind::Speed, r.speed) + spec_field_writes(
        FieldKind::Heading,
        r.heading,
    )
}

/// The monitor's own state: the notification count and whether a
/// latitude has ever been accepted.
#[derive(Debug, Clone, Copy, PartialEq, Eq, Structural)]
pub struct MonitorCore {
    pub tracker: UpdateTracker,
    pub data_available: bool,
}

impl MonitorCore {
    /// Fresh monitor state: nothing counted, no data seen.
    pub fn new() -> (r: MonitorCore)
        ensures
            r.tracker.received_updates == 0,
            !r.data_available,
    {
        MonitorCore { tracker: UpdateTracker::new(), data_available: false }
    }

    /// The state after one notification: the count grows by one, and
    /// data availability latches on an accepted latitude.
    pub open spec fn spec_after_notification(self, r: RawReading) -> MonitorCore {
        MonitorCore {
            tracker: UpdateTracker {
                received_updates: (self.tracker.received_updates + 1) as u64,
            },
            data_available: self.data_available || spec_validate(
                FieldKind::Latitude,
                r.latitude,
            ) is Accepted,
        }
    }

    /// Counts one incoming notification, before any decoding of its
    /// payload, and returns the sink write for the new count. Counted
    /// even when the payload later fails to decode.
    pub fn note_notification(&mut self) -> (w: GaugeWrite)
        requires
            old(self).tracker.received_updates < u64::MAX,
        ensures
            final(self).tracker.received_updates == old(self).tracker.received_updates + 1,
            final(self).data_available == old(self).data_available,
            w == GaugeWrite::UpdateCount(final(self).tracker.received_updates),
    {
        self.tracker.record_update();
        GaugeWrite::UpdateCount(self.tracker.received_updates)
    }

    /// Validates the six samples of a resolved reading and returns
    /// exactly the sink writes they cause, in the fixed field order.
    /// Rejected and absent samples are dropped without ending the
    /// monitor; an accepted latitude latches data availability.
    pub fn process_reading(&mut self, r: &RawReading) -> (writes: Vec<GaugeWrite>)
        ensures
            final(self).tracker == old(self).tracker,
            final(self).data_available == (old(self).data_available || spec_validate(
                FieldKind::Latitude,
                r.latitude,
            ) is Accepted),
            writes@ == spec_reading_writes(*r),
    {
        let mut writes: Vec<GaugeWrite> = Vec::new();
        if validate(FieldKind::Latitude, r.latitude) == Verdict::Accepted {
            writes.push(GaugeWrite::Sample(FieldKind::Latitude, r.latitude));
            writes.push(GaugeWrite::DataAvailable);
            self.data_available = true;
        }
        if validate(FieldKind::Longitude, r.longitude) == Verdict::Accepted {
            writes.push(GaugeWrite::Sample(FieldKind::Longitude, r.longitude));
        }
        if validate(FieldKind::Accuracy, r.accuracy) == Verdict::Accepted {
            writes.push(GaugeWrite::Sample(FieldKind::Accuracy, r.accuracy));
        }
        if validate(FieldKind::Altitude, r.altitude) == Verdict::Accepted {
            writes.push(GaugeWrite::Sample(FieldKind::Altitude, r.altitude));
        }
        if validate(FieldKind::Speed, r.speed) == Verdict::Accepted {
            writes.push(GaugeWrite::Sample(FieldKind::Speed, r.speed));
        }
        if validate(FieldKind::Heading, r.heading) == Verdict::Accepted {
            writes.push(GaugeWrite::Sample(FieldKind::Heading, r.heading));
        }
        proof {
            assert(writes@ =~= spec_reading_writes(*r));
        }
        writes
    }
}

/// The monitor state after a whole sequence of notifications.
pub open spec fn spec_after_all(core: MonitorCore, rs: Seq<RawReading>) -> MonitorCore
    decreases rs.len(),
{
    if rs.len() == 0 {
        core
    } else {
        spec_after_all(core.spec_after_notification(rs[0]), rs.skip(1))
    }
}

/// The update counter counts exactly the notifications delivered: after
/// `k` notifications it has grown by `k`, however the sequence is split
/// across sessions, because nothing ever resets it.
pub proof fn lemma_counter_counts_notifications(core: MonitorCore, rs: Seq<RawReading>)
    requires
        core.tracker.received_updates + rs.len() <= u64::MAX,
    ensures
        spec_after_all(core, rs).tracker.received_updates == core.tracker.received_updates
            + rs.len(),
    decreases rs.len(),
{
    if rs.len() > 0 {
        lemma_counter_counts_notifications(core.spec_after_notification(rs[0]), rs.skip(1));
    }
}

/// Once data has been available, no later notification revokes it.
pub proof fn lemma_data_available_latches(core: MonitorCore, rs: Seq<RawReading>)
    requires
        core.data_available,
    ensures
        spec_after_all(core, rs).data_available,
    decreases rs.len(),
{
    if rs.len() > 0 {
        lemma_data_available_latches(core.spec_after_notification(rs[0]), rs.skip(1));
    }
}

} // verus!
