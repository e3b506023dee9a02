//! The lock-free rings between the control plane and the audio callback.
//!
//! A ring has one producer and one consumer, on different threads. What the
//! consumer knows to be queued can only grow behind its back: the producer may
//! append at any time, and nobody but the consumer removes.

use vstd::prelude::*;

use crate::payload::{ControlPayload, GcItem, ParamPayload, SwapPayload};

verus! {

/// The consumer end of a ring of the `rtrb` crate.
#[verifier::external_type_specification]
#[verifier::external_body]
#[verifier::reject_recursive_types(T)]
pub struct ExConsumer<T>(rtrb::Consumer<T>);

/// The producer end of a ring of the `rtrb` crate.
#[verifier::external_type_specification]
#[verifier::external_body]
#[verifier::reject_recursive_types(T)]
pub struct ExProducer<T>(rtrb::Producer<T>);

/// Swap envelopes that the consumer knows to be queued, oldest first.
pub uninterp spec fn swaps_queued(c: rtrb::Consumer<SwapPayload>) -> Seq<SwapPayload>;

/// Commands that the consumer knows to be queued, oldest first.
pub uninterp spec fn commands_queued(c: rtrb::Consumer<ParamPayload>) -> Seq<ParamPayload>;

/// Retired items that the consumer knows to be queued, oldest first.
pub uninterp spec fn retired_queued(c: rtrb::Consumer<GcItem>) -> Seq<GcItem>;

/// Commands that the command ring took from its producer, oldest first.
pub uninterp spec fn commands_sent(p: rtrb::Producer<ParamPayload>) -> Seq<ParamPayload>;

/// Envelopes that a swap ring took from its producer, oldest first.
pub uninterp spec fn swaps_sent(p: rtrb::Producer<SwapPayload>) -> Seq<SwapPayload>;

/// Items that the disposal ring took from its producer, oldest first.
pub uninterp spec fn retired_sent(p: rtrb::Producer<GcItem>) -> Seq<GcItem>;

/// Messages that the recorder's control ring took from its producer, oldest
/// first.
pub uninterp spec fn control_sent(p: rtrb::Producer<ControlPayload>) -> Seq<ControlPayload>;

/// Commands that the command ring holds at most.
pub uninterp spec fn commands_capacity(p: rtrb::Producer<ParamPayload>) -> nat;

/// Envelopes that a swap ring holds at most.
pub uninterp spec fn swaps_capacity(p: rtrb::Producer<SwapPayload>) -> nat;

/// Items that the disposal ring holds at most.
pub uninterp spec fn retired_capacity(p: rtrb::Producer<GcItem>) -> nat;

/// Messages that the recorder's control ring holds at most.
pub uninterp spec fn control_capacity(p: rtrb::Producer<ControlPayload>) -> nat;

/// Whether `whole` begins with `start`.
pub open spec fn begins_with<T>(whole: Seq<T>, start: Seq<T>) -> bool {
    &&& start.len() <= whole.len()
    &&& whole.subrange(0, start.len() as int) == start
}

/// A sequence begins with itself.
pub proof fn begins_with_itself<T>(s: Seq<T>)
    ensures
        begins_with(s, s),
{
    assert(s.subrange(0, s.len() as int) =~= s);
}

/// What a consumer knows after it looked at the head of a ring of which it
/// knew `before`: the head is the first of what is queued, and what was queued
/// still is; without a head nothing was and nothing is queued.
pub open spec fn peeked<T>(before: Seq<T>, head: Option<T>, after: Seq<T>) -> bool {
    match head {
        Some(item) => after.len() > 0 && after[0] == item && begins_with(after, before),
        None => before.len() == 0 && after.len() == 0,
    }
}

/// Looking at the head keeps what was known to be queued.
pub proof fn peek_keeps_queue<T>(before: Seq<T>, head: Option<T>, after: Seq<T>)
    requires
        peeked(before, head, after),
    ensures
        begins_with(after, before),
{
    if head is None {
        assert(after.subrange(0, 0) =~= before);
    }
}

/// What a consumer knows after it popped from a ring of which it knew `before`:
/// the item taken and what is left begin with what was queued; without an item
/// nothing was and nothing is queued.
pub open spec fn popped<T>(before: Seq<T>, taken: Option<T>, after: Seq<T>) -> bool {
    match taken {
        Some(item) => begins_with(seq![item] + after, before),
        None => before.len() == 0 && after.len() == 0,
    }
}

/// Reading on keeps the order: what was taken so far, the next item and what is
/// left then still begin with all that was queued at the start.
pub proof fn pop_keeps_order<T>(
    start: Seq<T>,
    taken: Seq<T>,
    before: Seq<T>,
    item: T,
    after: Seq<T>,
)
    requires
        begins_with(taken + before, start),
        popped(before, Some(item), after),
    ensures
        begins_with(taken.push(item) + after, start),
        before.len() > 0 ==> before[0] == item,
{
    let joined = taken.push(item) + after;
    let tail = seq![item] + after;
    assert(joined =~= taken + tail);
    assert forall|i: int| 0 <= i < start.len() implies #[trigger] joined[i] == start[i] by {
        assert((taken + before).subrange(0, start.len() as int)[i] == start[i]);
        if i >= taken.len() {
            assert(tail.subrange(0, before.len() as int)[i - taken.len()] == before[i
                - taken.len()]);
        }
    }
    assert(joined.subrange(0, start.len() as int) =~= start);
    if before.len() > 0 {
        assert(tail.subrange(0, before.len() as int)[0] == before[0]);
    }
}

/// Looking at the head keeps the order as well.
pub proof fn peek_keeps_order<T>(
    start: Seq<T>,
    taken: Seq<T>,
    before: Seq<T>,
    head: Option<T>,
    after: Seq<T>,
)
    requires
        begins_with(taken + before, start),
        peeked(before, head, after),
    ensures
        begins_with(taken + after, start),
        head is None ==> start.len() <= taken.len(),
{
    let joined = taken + after;
    assert forall|i: int| 0 <= i < start.len() implies #[trigger] joined[i] == start[i] by {
        assert((taken + before).subrange(0, start.len() as int)[i] == start[i]);
        if i >= taken.len() {
            assert(after.subrange(0, before.len() as int)[i - taken.len()] == before[i
                - taken.len()]);
        }
    }
    assert(joined.subrange(0, start.len() as int) =~= start);
}

/// The longest ring that is made here.
pub const MAX_RING: usize = 1024;

/// Makes a swap ring (`rtrb::RingBuffer::new`).
///
/// Claimed of `new`: nothing was sent, nothing is queued, and the ring holds as
/// many items as it was made for. It panics only where the items together would
/// exceed the address space.
#[verifier::external_body]
pub(crate) fn new_swap_ring(capacity: usize) -> (r: (
    rtrb::Producer<SwapPayload>,
    rtrb::Consumer<SwapPayload>,
))
    requires
        capacity <= MAX_RING,
    ensures
        swaps_sent(r.0) == Seq::<SwapPayload>::empty(),
        swaps_capacity(r.0) == capacity,
        swaps_queued(r.1) == Seq::<SwapPayload>::empty(),
{
    rtrb::RingBuffer::new(capacity)
}

/// Makes the command ring (`rtrb::RingBuffer::new`; the same claims as for a
/// swap ring).
#[verifier::external_body]
pub(crate) fn new_command_ring(capacity: usize) -> (r: (
    rtrb::Producer<ParamPayload>,
    rtrb::Consumer<ParamPayload>,
))
    requires
        capacity <= MAX_RING,
    ensures
        commands_sent(r.0) == Seq::<ParamPayload>::empty(),
        commands_capacity(r.0) == capacity,
        commands_queued(r.1) == Seq::<ParamPayload>::empty(),
{
    rtrb::RingBuffer::new(capacity)
}

/// Makes the disposal ring (`rtrb::RingBuffer::new`; the same claims as for a
/// swap ring).
#[verifier::external_body]
pub(crate) fn new_retired_ring(capacity: usize) -> (r: (
    rtrb::Producer<GcItem>,
    rtrb::Consumer<GcItem>,
))
    requires
        capacity <= MAX_RING,
    ensures
        retired_sent(r.0) == Seq::<GcItem>::empty(),
        retired_capacity(r.0) == capacity,
        retired_queued(r.1) == Seq::<GcItem>::empty(),
{
    rtrb::RingBuffer::new(capacity)
}

/// Counts the queued items of the disposal ring (`rtrb::Consumer::slots`).
///
/// Claimed of `slots`: it returns how many items are queued at that moment and
/// removes none. A ring's capacity, which bounds the count, is at most half of
/// what a `usize` holds.
#[verifier::external_body]
pub(crate) fn count_retired(c: &mut rtrb::Consumer<GcItem>) -> (n: usize)
    ensures
        n == retired_queued(*final(c)).len(),
        begins_with(retired_queued(*final(c)), retired_queued(*old(c))),
        n <= usize::MAX / 2,
{
    c.slots()
}

/// Takes the oldest item out of the disposal ring (`rtrb::Consumer::pop`; the
/// same claims as for a swap ring).
#[verifier::external_body]
pub(crate) fn pop_retired(c: &mut rtrb::Consumer<GcItem>) -> (taken: Option<GcItem>)
    ensures
        popped(retired_queued(*old(c)), taken, retired_queued(*final(c))),
{
    c.pop().ok()
}

/// Reads the head of a swap ring without removing it (`rtrb::Consumer::peek`).
///
/// Claimed of `peek`: it returns the oldest queued item, or nothing exactly when
/// the ring holds nothing at that moment; it removes nothing.
#[verifier::external_body]
pub(crate) fn peek_swap(c: &mut rtrb::Consumer<SwapPayload>) -> (head: Option<SwapPayload>)
    ensures
        peeked(swaps_queued(*old(c)), head, swaps_queued(*final(c))),
{
    c.peek().ok().copied()
}

/// Takes the oldest envelope out of a swap ring (`rtrb::Consumer::pop`).
///
/// Claimed of `pop`: it removes and returns the oldest queued item, or returns
/// nothing exactly when the ring holds nothing at that moment.
#[verifier::external_body]
pub(crate) fn pop_swap(c: &mut rtrb::Consumer<SwapPayload>) -> (taken: Option<SwapPayload>)
    ensures
        popped(swaps_queued(*old(c)), taken, swaps_queued(*final(c))),
{
    c.pop().ok()
}

/// Reads the head of the command ring without removing it
/// (`rtrb::Consumer::peek`; the same claims as for a swap ring).
#[verifier::external_body]
pub(crate) fn peek_command(c: &mut rtrb::Consumer<ParamPayload>) -> (head: Option<ParamPayload>)
    ensures
        peeked(commands_queued(*old(c)), head, commands_queued(*final(c))),
{
    c.peek().ok().copied()
}

/// Takes the oldest command out of the command ring (`rtrb::Consumer::pop`; the
/// same claims as for a swap ring).
#[verifier::external_body]
pub(crate) fn pop_command(c: &mut rtrb::Consumer<ParamPayload>) -> (taken: Option<ParamPayload>)
    ensures
        popped(commands_queued(*old(c)), taken, commands_queued(*final(c))),
{
    c.pop().ok()
}

/// What a producer knows after it offered `item` to a ring into which it had
/// put `before`: the item was added at the end, or the ring was full at that
/// moment and the same item came back.
pub open spec fn pushed<T>(before: Seq<T>, item: T, r: Result<(), T>, after: Seq<T>) -> bool {
    match r {
        Ok(_) => after == before.push(item),
        Err(back) => back == item && after == before,
    }
}

/// Offers an envelope to a swap ring (`rtrb::Producer::push`).
///
/// Claimed of `push`: it appends the item, or hands the same item back when the
/// ring is full at that moment. A ring that was sent fewer items than it holds
/// is not full, whatever was read; after that, which of the two happens depends
/// on how far the other thread has come. What the ring holds does not change.
#[verifier::external_body]
pub(crate) fn push_swap(p: &mut rtrb::Producer<SwapPayload>, item: SwapPayload) -> (r: Result<
    (),
    SwapPayload,
>)
    ensures
        pushed(swaps_sent(*old(p)), item, r, swaps_sent(*final(p))),
        swaps_sent(*old(p)).len() < swaps_capacity(*old(p)) ==> r is Ok,
        swaps_capacity(*final(p)) == swaps_capacity(*old(p)),
{
    match p.push(item) {
        Ok(()) => Ok(()),
        Err(rtrb::PushError::Full(back)) => Err(back),
    }
}

/// Offers a command to the command ring (`rtrb::Producer::push`; the same claims
/// as for a swap ring).
#[verifier::external_body]
pub(crate) fn push_command(p: &mut rtrb::Producer<ParamPayload>, item: ParamPayload) -> (r: Result<
    (),
    ParamPayload,
>)
    ensures
        pushed(commands_sent(*old(p)), item, r, commands_sent(*final(p))),
        commands_sent(*old(p)).len() < commands_capacity(*old(p)) ==> r is Ok,
        commands_capacity(*final(p)) == commands_capacity(*old(p)),
{
    match p.push(item) {
        Ok(()) => Ok(()),
        Err(rtrb::PushError::Full(back)) => Err(back),
    }
}

/// Offers a retired item to the disposal ring (`rtrb::Producer::push`; the same
/// claims as for a swap ring).
#[verifier::external_body]
pub(crate) fn push_retired(p: &mut rtrb::Producer<GcItem>, item: GcItem) -> (r: Result<(), GcItem>)
    ensures
        pushed(retired_sent(*old(p)), item, r, retired_sent(*final(p))),
        retired_sent(*old(p)).len() < retired_capacity(*old(p)) ==> r is Ok,
        retired_capacity(*final(p)) == retired_capacity(*old(p)),
{
    match p.push(item) {
        Ok(()) => Ok(()),
        Err(rtrb::PushError::Full(back)) => Err(back),
    }
}

/// Offers a message to the recorder's control ring (`rtrb::Producer::push`; the
/// same claims as for a swap ring).
#[verifier::external_body]
pub(crate) fn push_control(p: &mut rtrb::Producer<ControlPayload>, item: ControlPayload) -> (r: Result<
    (),
    ControlPayload,
>)
    ensures
        pushed(control_sent(*old(p)), item, r, control_sent(*final(p))),
        control_sent(*old(p)).len() < control_capacity(*old(p)) ==> r is Ok,
        control_capacity(*final(p)) == control_capacity(*old(p)),
{
    match p.push(item) {
        Ok(()) => Ok(()),
        Err(rtrb::PushError::Full(back)) => Err(back),
    }
}

} // verus!
