//! The bounded FIFO channel that couples the sampler (sole producer) to the
//! renderer (sole consumer).  The queue itself is `embassy_sync`'s channel;
//! its behaviour enters the proofs only through the trusted contracts below,
//! stated over the abstract sequence of buffered pairs.

use crate::reading::Reading;
use vstd::prelude::*;

verus! {

/// Capacity of the sampler-to-renderer channel: at most this many readings
/// are outstanding at once.
pub const CHANNEL_CAPACITY: usize = 5;

/// The channel instance the two tasks share, carrying
/// (raw_value, percentage) pairs.  The queue inside is `embassy_sync`'s
/// critical-section channel; Verus sees it only through the trusted
/// contracts below.
#[verifier::external_body]
pub struct ReadingChannel {
    inner: embassy_sync::channel::Channel<
        embassy_sync::blocking_mutex::raw::CriticalSectionRawMutex,
        (u16, u32),
        5,
    >,
}

/// The pairs currently buffered in the channel, oldest first.
pub uninterp spec fn channel_contents(ch: ReadingChannel) -> Seq<(u16, u32)>;

/// The pair a reading travels as.
pub open spec fn pair_of(r: Reading) -> (u16, u32) {
    (r.raw_value, r.percentage)
}

/// The reading a buffered pair stands for.
pub open spec fn reading_of(p: (u16, u32)) -> Reading {
    Reading { raw_value: p.0, percentage: p.1 }
}

/// Relies on embassy_sync::channel::Channel::new: a freshly built channel
/// buffers no messages.
#[verifier::external_body]
pub fn new_channel() -> (ch: ReadingChannel)
    ensures
        channel_contents(ch) == Seq::<(u16, u32)>::empty(),
{
    ReadingChannel { inner: embassy_sync::channel::Channel::new() }
}

/// Relies on embassy_sync::channel::Channel::try_send: the message goes to
/// the back of the queue when a slot is free, and comes back unchanged inside
/// TrySendError::Full when the channel already holds its capacity.
#[verifier::external_body]
fn chan_try_send(ch: &mut ReadingChannel, item: (u16, u32)) -> (rejected: Option<(u16, u32)>)
    ensures
        channel_contents(*old(ch)).len() < CHANNEL_CAPACITY ==> (rejected is None
            && channel_contents(*final(ch)) == channel_contents(*old(ch)).push(item)),
        channel_contents(*old(ch)).len() >= CHANNEL_CAPACITY ==> (rejected == Some(item)
            && channel_contents(*final(ch)) == channel_contents(*old(ch))),
{
    match ch.inner.try_send(item) {
        Ok(()) => None,
        Err(embassy_sync::channel::TrySendError::Full(v)) => Some(v),
    }
}

/// Relies on embassy_sync::channel::Channel::try_receive: the oldest buffered
/// message is popped from the front of the queue, and an empty channel is
/// left untouched.
#[verifier::external_body]
fn chan_try_receive(ch: &mut ReadingChannel) -> (received: Option<(u16, u32)>)
    ensures
        channel_contents(*old(ch)).len() == 0 ==> (received is None
            && channel_contents(*final(ch)) == channel_contents(*old(ch))),
        channel_contents(*old(ch)).len() > 0 ==> (received == Some(
            channel_contents(*old(ch))[0],
        )
            && channel_contents(*final(ch)) == channel_contents(*old(ch)).subrange(
            1,
            channel_contents(*old(ch)).len() as int,
        )),
{
    match ch.inner.try_receive() {
        Ok(v) => Some(v),
        Err(embassy_sync::channel::TryReceiveError::Empty) => None,
    }
}

/// Relies on embassy_sync::channel::Channel::len: the number of messages
/// currently buffered.
#[verifier::external_body]
pub fn chan_len(ch: &ReadingChannel) -> (n: usize)
    ensures
        n == channel_contents(*ch).len(),
{
    ch.inner.len()
}

/// Publish a reading at the back of the channel.  With a slot free the
/// reading is accepted; with the channel full it is handed back intact — the
/// send stays pending, the reading is never dropped, and the caller yields
/// and retries once the renderer has consumed a slot.
pub fn publish(ch: &mut ReadingChannel, r: Reading) -> (pending: Option<Reading>)
    ensures
        channel_contents(*old(ch)).len() < CHANNEL_CAPACITY ==> (pending is None
            && channel_contents(*final(ch)) == channel_contents(*old(ch)).push(pair_of(r))),
        channel_contents(*old(ch)).len() >= CHANNEL_CAPACITY ==> (pending == Some(r)
            && channel_contents(*final(ch)) == channel_contents(*old(ch))),
{
    match chan_try_send(ch, r.to_pair()) {
        None => None,
        Some(p) => Some(Reading::from_pair(p)),
    }
}

/// Take the oldest reading off the channel, if any: strict FIFO, the reading
/// published first is consumed first.
pub fn consume(ch: &mut ReadingChannel) -> (received: Option<Reading>)
    ensures
        channel_contents(*old(ch)).len() == 0 ==> (received is None
            && channel_contents(*final(ch)) == channel_contents(*old(ch))),
        channel_contents(*old(ch)).len() > 0 ==> (received == Some(
            reading_of(channel_contents(*old(ch))[0]),
        )
            && channel_contents(*final(ch)) == channel_contents(*old(ch)).subrange(
            1,
            channel_contents(*old(ch)).len() as int,
        )),
{
    match chan_try_receive(ch) {
        None => None,
        Some(p) => Some(Reading::from_pair(p)),
    }
}

/// FIFO law: publishing three readings into an empty channel and then
/// consuming three times yields exactly those readings, in publication
/// order, and leaves the channel empty.
pub fn fifo_order(ch: &mut ReadingChannel, r1: Reading, r2: Reading, r3: Reading) -> (out: (
    Reading,
    Reading,
    Reading,
))
    requires
        channel_contents(*old(ch)).len() == 0,
    ensures
        out.0 == r1,
        out.1 == r2,
        out.2 == r3,
        channel_contents(*final(ch)).len() == 0,
{
    let accepted1 = publish(ch, r1);
    let accepted2 = publish(ch, r2);
    let accepted3 = publish(ch, r3);
    assert(accepted1 is None && accepted2 is None && accepted3 is None);
    let a = consume(ch);
    let b = consume(ch);
    let c = consume(ch);
    (a.unwrap(), b.unwrap(), c.unwrap())
}

/// Back-pressure law: after five readings fill the channel, a sixth publish
/// stays pending — the reading comes back intact, nothing is dropped and no
/// error is raised — and one consume (which yields the oldest reading) frees
/// the slot that lets the retried publish succeed behind the rest.
pub fn backpressure_cycle(
    ch: &mut ReadingChannel,
    r1: Reading,
    r2: Reading,
    r3: Reading,
    r4: Reading,
    r5: Reading,
    r6: Reading,
) -> (out: (Reading, Reading))
    requires
        channel_contents(*old(ch)).len() == 0,
    ensures
        out.0 == r6,
        out.1 == r1,
        channel_contents(*final(ch)) == seq![
            pair_of(r2),
            pair_of(r3),
            pair_of(r4),
            pair_of(r5),
            pair_of(r6),
        ],
{
    let accepted1 = publish(ch, r1);
    let accepted2 = publish(ch, r2);
    let accepted3 = publish(ch, r3);
    let accepted4 = publish(ch, r4);
    let accepted5 = publish(ch, r5);
    assert(accepted1 is None && accepted2 is None && accepted3 is None && accepted4 is None
        && accepted5 is None);
    let pending = publish(ch, r6);
    assert(pending == Some(r6));
    let freed = consume(ch);
    let retried = pending.unwrap();
    let accepted = publish(ch, retried);
    assert(accepted is None);
    proof {
        assert(channel_contents(*ch) =~= seq![
            pair_of(r2),
            pair_of(r3),
            pair_of(r4),
            pair_of(r5),
            pair_of(r6),
        ]);
    }
    (retried, freed.unwrap())
}

} // verus!
