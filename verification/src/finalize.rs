//! Making a batch ready to be sent: every item gets a timestamp.
//!
//! A batch has no timestamp of its own. An item that comes without one is
//! given the time at which the batch is made ready; the clock is read once,
//! so all such items of one batch share one timestamp.

use crate::message::{Batch, BatchMessage, BatchView};
use crate::timestamp::now_utc;
use time::OffsetDateTime;
use vstd::prelude::*;

verus! {

impl BatchView {
    /// The batch in which every item without a timestamp has the given one.
    /// Nothing else differs.
    pub open spec fn backfilled(self, now: OffsetDateTime) -> BatchView {
        BatchView {
            items: Seq::new(
                self.items.len(),
                |i: int|
                    match self.items[i].timestamp {
                        Some(_) => self.items[i],
                        None => self.items[i].with_timestamp(Some(now)),
                    },
            ),
            ..self
        }
    }

    /// Whether every item has a timestamp.
    pub open spec fn all_stamped(self) -> bool {
        forall|i: int| 0 <= i < self.items.len() ==> (#[trigger] self.items[i]).timestamp is Some
    }
}

impl BatchMessage {
    /// The event with the given timestamp, unless it has one already.
    pub fn stamped(self, now: OffsetDateTime) -> (r: BatchMessage)
        ensures
            r@ == (match self@.timestamp {
                Some(_) => self@,
                None => self@.with_timestamp(Some(now)),
            }),
    {
        let mut event = self;
        let timestamp = event.timestamp_mut();
        if timestamp.is_none() {
            *timestamp = Some(now);
        }
        event
    }
}

impl Batch {
    /// Gives every item that has no timestamp the given one.
    pub fn backfill(self, now: OffsetDateTime) -> (r: Batch)
        ensures
            r@ == self@.backfilled(now),
            r@.all_stamped(),
    {
        let Batch { batch, context, integrations, extra } = self;
        let ghost before = batch@;
        let mut items: Vec<BatchMessage> = Vec::new();
        for item in it: batch.into_iter()
            invariant
                it.seq() == before,
                items.len() == it.index(),
                forall|j: int|
                    0 <= j < items.len() ==> (#[trigger] items@[j])@ == (match before[j]@
                        .timestamp {
                        Some(_) => before[j]@,
                        None => before[j]@.with_timestamp(Some(now)),
                    }),
        {
            items.push(item.stamped(now));
        }
        let r = Batch { batch: items, context, integrations, extra };
        assert(r@.items =~= self@.backfilled(now).items);
        r
    }

    /// Makes the batch ready to be sent: reads the clock once and gives
    /// every item that has no timestamp the time that it shows. Afterwards
    /// every item has a timestamp.
    pub fn finalize(self) -> (r: Batch)
        ensures
            exists|now: OffsetDateTime| r@ == self@.backfilled(now),
            r@.all_stamped(),
    {
        let now = now_utc();
        self.backfill(now)
    }
}

} // verus!
