//! The broadcaster: the single consumer of the ingest channel. Each drained
//! event is serialized once into its canonical JSON frame and published to
//! the fan-out bus.
//!
//! Serialization is total — every well-typed event has a wire form — so no
//! event is ever skipped here, and publishing needs no subscribers to
//! succeed.
use vstd::prelude::*;

use crate::bus::FanoutBus;
use crate::bus::bus_model_wf;
use crate::bus::spec_publish;
use crate::codec::serialize;
use crate::codec::spec_serialize;
use crate::event::UiEvent;
use crate::ingest::IngestQueue;

verus! {

/// Serializes one event and publishes the frame to every subscriber.
pub fn broadcast_step(bus: &mut FanoutBus, e: &UiEvent)
    requires
        old(bus).well_formed(),
    ensures
        final(bus).well_formed(),
        final(bus)@ == spec_publish(old(bus)@, spec_serialize(e@)),
        bus_model_wf(old(bus)@) ==> bus_model_wf(final(bus)@),
{
    let frame = serialize(e);
    bus.publish(frame.as_str());
}

/// Drains at most one event from the ingest channel into the bus: the front
/// of the queue, in arrival order, becomes the next published frame.
/// Reports whether anything was drained.
pub fn pump_step(queue: &mut IngestQueue, bus: &mut FanoutBus) -> (advanced: bool)
    requires
        old(bus).well_formed(),
    ensures
        final(bus).well_formed(),
        final(queue).cap() == old(queue).cap(),
        advanced == (old(queue).contents().len() > 0),
        old(queue).contents().len() == 0 ==> final(queue).contents() == old(queue).contents()
            && final(bus)@ == old(bus)@,
        old(queue).contents().len() > 0 ==> final(queue).contents() == old(
            queue,
        ).contents().drop_first() && final(bus)@ == spec_publish(
            old(bus)@,
            spec_serialize(old(queue).contents()[0]),
        ),
        bus_model_wf(old(bus)@) ==> bus_model_wf(final(bus)@),
{
    match queue.poll() {
        Option::None => false,
        Option::Some(e) => {
            broadcast_step(bus, &e);
            true
        },
    }
}

} // verus!
