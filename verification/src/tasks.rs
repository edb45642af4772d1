//! The decision cores of the two tasks.  The unverified shell around the
//! library does the hardware work — the blocking analog read, the timer
//! waits, the display driver calls — and hands each cycle's event to these
//! functions, which decide what is published and what is drawn.

use crate::channel::{channel_contents, publish, reading_of, ReadingChannel, CHANNEL_CAPACITY};
use crate::reading::{percentage_spec, Reading, RAW_FULL_SCALE};
use crate::render::{frame_ops, frame_ops_spec, DrawOp};
use vstd::prelude::*;

verus! {

/// One sampler cycle after the hardware read: calibrate the raw sample into
/// a reading and publish it.  A full channel hands the reading back intact —
/// the publication stays pending and the task yields and retries with it;
/// no reading is ever dropped or corrupted.
pub fn sampler_cycle(ch: &mut ReadingChannel, raw: u16) -> (pending: Option<Reading>)
    requires
        raw < RAW_FULL_SCALE,
    ensures
        channel_contents(*old(ch)).len() < CHANNEL_CAPACITY ==> (pending is None
            && channel_contents(*final(ch)) == channel_contents(*old(ch)).push(
            (raw, percentage_spec(raw as int) as u32),
        )),
        channel_contents(*old(ch)).len() >= CHANNEL_CAPACITY ==> (pending matches Some(r)
            && r.wf()
            && r.raw_value == raw
            && channel_contents(*final(ch)) == channel_contents(*old(ch))),
{
    let r = Reading::from_raw(raw);
    publish(ch, r)
}

/// One renderer cycle: take the oldest reading off the channel, if any, and
/// lay out the dynamic frame for it.  The frame reflects exactly the reading
/// consumed — never a stale one — and contains no title drawing.
pub fn renderer_cycle(ch: &mut ReadingChannel) -> (out: Option<(Reading, Vec<DrawOp>)>)
    requires
        forall|i: int|
            0 <= i < channel_contents(*old(ch)).len() ==> channel_contents(*old(ch))[i].1 <= 100,
    ensures
        channel_contents(*old(ch)).len() == 0 ==> (out is None && channel_contents(*final(ch))
            == channel_contents(*old(ch))),
        channel_contents(*old(ch)).len() > 0 ==> (out matches Some(pair)
            && pair.0 == reading_of(channel_contents(*old(ch))[0])
            && pair.1@ == frame_ops_spec(reading_of(channel_contents(*old(ch))[0]))
            && channel_contents(*final(ch)) == channel_contents(*old(ch)).subrange(
            1,
            channel_contents(*old(ch)).len() as int,
        )),
{
    match crate::channel::consume(ch) {
        None => None,
        Some(r) => {
            let ops = frame_ops(&r);
            Some((r, ops))
        },
    }
}

} // verus!
