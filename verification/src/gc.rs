//! Disposal of retired objects: the audio thread never frees memory.
//!
//! A retired item goes to the disposal ring; when that is full, into one of
//! sixteen parking slots; when those are full too, it is handed back to the
//! caller's last-resort buffer. Later callbacks move parked items to the ring.

use vstd::prelude::*;

use crate::payload::GcItem;
use crate::rings::{push_retired, retired_capacity, retired_sent};

verus! {

/// Number of parking slots.
pub const PARKING_SLOTS: usize = 16;

/// The parking slots, and whether one may be in use.
pub struct ParkingLot {
    /// The slots.
    pub slots: [Option<GcItem>; 16],
    /// Whether an item was retired since the slots were last found empty.
    pub dirty: bool,
}

/// The items in the slots, in slot order.
pub open spec fn parked(slots: Seq<Option<GcItem>>) -> Seq<GcItem>
    decreases slots.len(),
{
    if slots.len() == 0 {
        Seq::empty()
    } else {
        match slots.last() {
            Some(item) => parked(slots.drop_last()).push(item),
            None => parked(slots.drop_last()),
        }
    }
}

/// The slots with the first `stop` of them emptied.
pub open spec fn emptied(slots: Seq<Option<GcItem>>, stop: int) -> Seq<Option<GcItem>> {
    Seq::new(slots.len(), |j: int| if j < stop { None } else { slots[j] })
}

/// Whether a flush may have stopped at slot `stop`: the items before it were
/// sent in order, and where a slot was left over its item could not be sent. A
/// ring that was sent fewer items than it holds takes one more.
pub open spec fn flush_outcome(
    slots: Seq<Option<GcItem>>,
    sent: Seq<GcItem>,
    capacity: nat,
    slots_after: Seq<Option<GcItem>>,
    sent_after: Seq<GcItem>,
    stop: int,
) -> bool {
    &&& 0 <= stop <= slots.len()
    &&& slots_after == emptied(slots, stop)
    &&& sent_after == sent + parked(slots.subrange(0, stop))
    &&& stop < slots.len() ==> slots[stop] is Some && capacity <= sent_after.len()
}

pub(crate) proof fn parked_step(slots: Seq<Option<GcItem>>, i: int)
    requires
        0 <= i < slots.len(),
    ensures
        parked(slots.subrange(0, i + 1)) == match slots[i] {
            Some(item) => parked(slots.subrange(0, i)).push(item),
            None => parked(slots.subrange(0, i)),
        },
{
    assert(slots.subrange(0, i + 1).drop_last() =~= slots.subrange(0, i));
}

/// Emptying a prefix of the slots parts the parked items in two, in order.
pub proof fn parked_splits(slots: Seq<Option<GcItem>>, stop: int)
    requires
        0 <= stop <= slots.len(),
    ensures
        parked(slots) == parked(slots.subrange(0, stop)) + parked(emptied(slots, stop)),
    decreases slots.len(),
{
    if slots.len() == 0 {
        assert(slots.subrange(0, stop) =~= slots);
        assert(emptied(slots, stop) =~= slots);
    } else if stop == slots.len() {
        assert(slots.subrange(0, stop) =~= slots);
        parked_of_empty_slots(emptied(slots, stop));
        assert(parked(slots) + Seq::<GcItem>::empty() =~= parked(slots));
    } else {
        parked_splits(slots.drop_last(), stop);
        assert(slots.drop_last().subrange(0, stop) =~= slots.subrange(0, stop));
        assert(emptied(slots, stop).drop_last() =~= emptied(slots.drop_last(), stop));
        assert(parked(slots) =~= parked(slots.subrange(0, stop)) + parked(emptied(slots, stop)));
    }
}

/// Empty slots hold no item.
pub proof fn parked_of_empty_slots(slots: Seq<Option<GcItem>>)
    requires
        forall|j: int| 0 <= j < slots.len() ==> slots[j] is None,
    ensures
        parked(slots).len() == 0,
    decreases slots.len(),
{
    if slots.len() > 0 {
        parked_of_empty_slots(slots.drop_last());
    }
}

/// A flush neither loses nor doubles an item: what was sent and what is still
/// parked together are what was sent and parked before, in the same order.
pub proof fn flush_conserves(
    slots: Seq<Option<GcItem>>,
    sent: Seq<GcItem>,
    capacity: nat,
    slots_after: Seq<Option<GcItem>>,
    sent_after: Seq<GcItem>,
    stop: int,
)
    requires
        flush_outcome(slots, sent, capacity, slots_after, sent_after, stop),
    ensures
        sent_after + parked(slots_after) == sent + parked(slots),
{
    parked_splits(slots, stop);
    assert(sent_after + parked(slots_after) =~= sent + parked(slots));
}

/// Whether slot `k` is the first free one.
pub open spec fn first_free(slots: Seq<Option<GcItem>>, k: int) -> bool {
    &&& 0 <= k < slots.len()
    &&& slots[k] is None
    &&& forall|j: int| 0 <= j < k ==> slots[j] is Some
}

/// Whether parking `item` leads from the first slots to the second with `back`
/// handed back: it goes into the first free slot, or comes back without one.
pub open spec fn park_outcome(
    item: GcItem,
    slots: Seq<Option<GcItem>>,
    slots_after: Seq<Option<GcItem>>,
    back: Option<GcItem>,
) -> bool {
    ||| back is None && exists|k: int| #[trigger]
        first_free(slots, k) && slots_after == slots.update(k, Some(item))
    ||| back == Some(item) && slots_after == slots && forall|j: int|
        0 <= j < slots.len() ==> slots[j] is Some
}

/// Whether retiring `item` may lead from the first pair of slots and sent items
/// to the second with `back` handed back, after a flush that stopped at `stop`:
/// the ring takes it, or, being full, leaves it for the first free slot, or,
/// without one, for the caller.
pub open spec fn retire_outcome(
    item: GcItem,
    slots: Seq<Option<GcItem>>,
    sent: Seq<GcItem>,
    capacity: nat,
    slots_after: Seq<Option<GcItem>>,
    sent_after: Seq<GcItem>,
    back: Option<GcItem>,
    stop: int,
) -> bool {
    let mid = emptied(slots, stop);
    let mid_sent = sent + parked(slots.subrange(0, stop));
    &&& flush_outcome(slots, sent, capacity, mid, mid_sent, stop)
    &&& {
        ||| back is None && slots_after == mid && sent_after == mid_sent.push(item)
        ||| capacity <= mid_sent.len() && sent_after == mid_sent && park_outcome(
            item,
            mid,
            slots_after,
            back,
        )
    }
}

proof fn parked_with_one_more(slots: Seq<Option<GcItem>>, k: int, item: GcItem)
    requires
        0 <= k < slots.len(),
        slots[k] is None,
    ensures
        parked(slots.update(k, Some(item))).to_multiset() == parked(slots).to_multiset().insert(
            item,
        ),
    decreases slots.len(),
{
    broadcast use vstd::seq_lib::group_to_multiset_ensures;

    let more = slots.update(k, Some(item));
    if k == slots.len() - 1 {
        assert(more.drop_last() =~= slots.drop_last());
        assert(parked(more) =~= parked(slots).push(item));
    } else {
        parked_with_one_more(slots.drop_last(), k, item);
        assert(more.drop_last() =~= slots.drop_last().update(k, Some(item)));
        assert(parked(more).to_multiset() =~= parked(slots).to_multiset().insert(item));
    }
}

/// Retiring neither loses nor doubles an item: what was sent, what is parked
/// and what came back are what was sent and parked before, and the item.
pub proof fn retire_conserves(
    item: GcItem,
    slots: Seq<Option<GcItem>>,
    sent: Seq<GcItem>,
    capacity: nat,
    slots_after: Seq<Option<GcItem>>,
    sent_after: Seq<GcItem>,
    back: Option<GcItem>,
    stop: int,
)
    requires
        retire_outcome(item, slots, sent, capacity, slots_after, sent_after, back, stop),
    ensures
        ({
            let kept = sent_after.to_multiset().add(parked(slots_after).to_multiset());
            let given = sent.to_multiset().add(parked(slots).to_multiset()).insert(item);
            match back {
                None => kept == given,
                Some(b) => b == item && kept.insert(b) == given,
            }
        }),
{
    broadcast use vstd::seq_lib::group_to_multiset_ensures;

    let mid = emptied(slots, stop);
    let mid_sent = sent + parked(slots.subrange(0, stop));
    flush_conserves(slots, sent, capacity, mid, mid_sent, stop);
    vstd::seq_lib::lemma_multiset_commutative(mid_sent, parked(mid));
    vstd::seq_lib::lemma_multiset_commutative(sent, parked(slots));
    let kept = sent_after.to_multiset().add(parked(slots_after).to_multiset());
    let given = sent.to_multiset().add(parked(slots).to_multiset()).insert(item);
    if back is None && sent_after == mid_sent.push(item) && slots_after == mid {
        assert(kept =~= given);
    } else if back is None {
        let k = choose|k: int| #[trigger]
            first_free(mid, k) && slots_after == mid.update(k, Some(item));
        parked_with_one_more(mid, k, item);
        assert(kept =~= given);
    } else {
        assert(kept.insert(item) =~= given);
    }
}

/// The parking slots and the disposal ring, as mathematical values.
pub struct LotView {
    /// The slots.
    pub slots: Seq<Option<GcItem>>,
    /// Whether a slot may be in use.
    pub dirty: bool,
    /// What the ring was sent.
    pub sent: Seq<GcItem>,
    /// What the ring holds at most.
    pub capacity: nat,
}

/// The parking slots and the disposal ring as one value.
pub open spec fn lot_view(lot: ParkingLot, producer: rtrb::Producer<GcItem>) -> LotView {
    LotView {
        slots: lot.slots@,
        dirty: lot.dirty,
        sent: retired_sent(producer),
        capacity: retired_capacity(producer),
    }
}

/// Whether a start-of-callback flush may lead from `a` to `b`: a clean lot stays
/// as it is, and a flushed one is clean once every slot was emptied.
pub open spec fn flushed(a: LotView, b: LotView) -> bool {
    if !a.dirty {
        b == a
    } else {
        &&& b.capacity == a.capacity
        &&& exists|stop: int|
            b.dirty == (stop < a.slots.len()) && #[trigger] flush_outcome(
                a.slots,
                a.sent,
                a.capacity,
                b.slots,
                b.sent,
                stop,
            )
    }
}

/// Whether retiring `item` may lead from `a` to `b` with `back` handed back.
pub open spec fn retired_to(item: GcItem, a: LotView, back: Option<GcItem>, b: LotView) -> bool {
    &&& b.dirty
    &&& b.capacity == a.capacity
    &&& exists|stop: int| #[trigger]
        retire_outcome(item, a.slots, a.sent, a.capacity, b.slots, b.sent, back, stop)
}

impl ParkingLot {
    /// An empty lot.
    pub fn new() -> (r: Self)
        ensures
            !r.dirty,
            forall|j: int| 0 <= j < PARKING_SLOTS ==> r.slots@[j] is None,
    {
        ParkingLot {
            slots: [
                None, None, None, None, None, None, None, None, None, None, None, None, None, None,
                None, None,
            ],
            dirty: false,
        }
    }

    /// Moves parked items to the disposal ring until one does not fit.
    fn flush_slots(&mut self, producer: &mut rtrb::Producer<GcItem>) -> (clean: bool)
        ensures
            final(self).dirty == old(self).dirty,
            retired_capacity(*final(producer)) == retired_capacity(*old(producer)),
            exists|stop: int|
                clean == (stop == PARKING_SLOTS) && #[trigger] flush_outcome(
                    old(self).slots@,
                    retired_sent(*old(producer)),
                    retired_capacity(*old(producer)),
                    final(self).slots@,
                    retired_sent(*final(producer)),
                    stop,
                ),
    {
        let ghost slots = self.slots@;
        let ghost sent = retired_sent(*producer);
        let ghost capacity = retired_capacity(*producer);
        let mut i: usize = 0;
        let mut clean = true;
        proof {
            assert(emptied(slots, 0) =~= slots);
            assert(sent + parked(slots.subrange(0, 0)) =~= sent);
        }
        while clean && i < PARKING_SLOTS
            invariant
                slots.len() == PARKING_SLOTS,
                slots == old(self).slots@,
                self.dirty == old(self).dirty,
                0 <= i <= PARKING_SLOTS,
                self.slots@ == emptied(slots, i as int),
                retired_capacity(*producer) == capacity,
                retired_sent(*producer) == sent + parked(slots.subrange(0, i as int)),
                !clean ==> i < PARKING_SLOTS && slots[i as int] is Some && capacity
                    <= retired_sent(*producer).len(),
            decreases (if clean { 1int } else { 0int }), PARKING_SLOTS - i,
        {
            proof {
                parked_step(slots, i as int);
            }
            let slot = self.slots[i];
            match slot {
                Some(item) => {
                    let offered = push_retired(producer, item);
                    match offered {
                        Ok(_) => {
                            self.slots[i] = None;
                            i = i + 1;
                            assert(self.slots@ =~= emptied(slots, i as int));
                            assert(retired_sent(*producer) =~= sent + parked(
                                slots.subrange(0, i as int),
                            ));
                        },
                        Err(_) => {
                            clean = false;
                        },
                    }
                },
                None => {
                    i = i + 1;
                    assert(self.slots@ =~= emptied(slots, i as int));
                },
            }
        }
        assert(flush_outcome(slots, sent, capacity, self.slots@, retired_sent(*producer), i as int));
        clean
    }

    /// Start-of-callback flush: skipped while the lot is clean; the lot counts
    /// as clean again once every slot was emptied.
    pub fn flush(&mut self, producer: &mut rtrb::Producer<GcItem>)
        ensures
            flushed(lot_view(*old(self), *old(producer)), lot_view(*final(self), *final(producer))),
    {
        if self.dirty {
            let ghost a = lot_view(*self, *producer);
            let clean = self.flush_slots(producer);
            if clean {
                self.dirty = false;
            }
            proof {
                let b = lot_view(*self, *producer);
                let stop = choose|stop: int|
                    clean == (stop == PARKING_SLOTS) && #[trigger] flush_outcome(
                        a.slots,
                        a.sent,
                        a.capacity,
                        b.slots,
                        b.sent,
                        stop,
                    );
                assert(flush_outcome(a.slots, a.sent, a.capacity, b.slots, b.sent, stop));
                assert(a.slots.len() == PARKING_SLOTS);
                assert(flushed(a, b));
            }
        }
    }

    /// Puts an item that the ring did not take into the first free slot. Without
    /// one it comes back.
    pub fn park(&mut self, item: GcItem) -> (back: Option<GcItem>)
        ensures
            final(self).dirty == old(self).dirty,
            park_outcome(item, old(self).slots@, final(self).slots@, back),
    {
        let ghost slots = self.slots@;
        let mut i: usize = 0;
        while i < PARKING_SLOTS
            invariant
                0 <= i <= PARKING_SLOTS,
                slots.len() == PARKING_SLOTS,
                slots == old(self).slots@,
                *self == *old(self),
                forall|j: int| 0 <= j < i ==> slots[j] is Some,
            decreases PARKING_SLOTS - i,
        {
            if self.slots[i].is_none() {
                self.slots[i] = Some(item);
                assert(self.slots@ =~= slots.update(i as int, Some(item)));
                assert(first_free(slots, i as int));
                return None;
            }
            i = i + 1;
        }
        Some(item)
    }

    /// Retires one item: to the disposal ring, else into the first free slot.
    /// An item that fits neither comes back for the last-resort buffer.
    pub fn retire(&mut self, item: GcItem, producer: &mut rtrb::Producer<GcItem>) -> (back: Option<
        GcItem,
    >)
        ensures
            retired_to(
                item,
                lot_view(*old(self), *old(producer)),
                back,
                lot_view(*final(self), *final(producer)),
            ),
    {
        let ghost a = lot_view(*self, *producer);
        self.dirty = true;
        let _ = self.flush_slots(producer);
        let ghost mid = self.slots@;
        let ghost mid_sent = retired_sent(*producer);
        let ghost stop = choose|stop: int| #[trigger]
            flush_outcome(a.slots, a.sent, a.capacity, mid, mid_sent, stop);
        let back = match push_retired(producer, item) {
            Ok(_) => None,
            Err(refused) => self.park(refused),
        };
        proof {
            let b = lot_view(*self, *producer);
            assert(retire_outcome(item, a.slots, a.sent, a.capacity, b.slots, b.sent, back, stop));
            assert(retired_to(item, a, back, b));
        }
        back
    }
}

/// Whether retiring `item` may lead from `a` to `b`, what comes back going to
/// the end of the last-resort buffer.
pub open spec fn one_disposed(
    item: GcItem,
    a: LotView,
    spare: Seq<GcItem>,
    b: LotView,
    spare_after: Seq<GcItem>,
) -> bool {
    exists|back: Option<GcItem>| #[trigger]
        retired_to(item, a, back, b) && spare_after == match back {
            Some(x) => spare.push(x),
            None => spare,
        }
}

/// Whether retiring `items` one after the other may lead from `a` to `b`.
pub open spec fn all_disposed(
    items: Seq<GcItem>,
    a: LotView,
    spare: Seq<GcItem>,
    b: LotView,
    spare_after: Seq<GcItem>,
) -> bool
    decreases items.len(),
{
    if items.len() == 0 {
        b == a && spare_after == spare
    } else {
        exists|m: LotView, spare_m: Seq<GcItem>|
            all_disposed(items.drop_last(), a, spare, m, spare_m) && #[trigger] one_disposed(
                items.last(),
                m,
                spare_m,
                b,
                spare_after,
            )
    }
}

/// All items that left the callback and are not freed yet, in no order: sent to
/// the disposal ring, parked, or in the last-resort buffer.
pub open spec fn in_disposal(
    sent: Seq<GcItem>,
    slots: Seq<Option<GcItem>>,
    overflow: Seq<GcItem>,
) -> vstd::multiset::Multiset<GcItem> {
    sent.to_multiset().add(parked(slots).to_multiset()).add(overflow.to_multiset())
}

/// Retires every item of `retired`, oldest first; what fits neither the ring
/// nor a slot goes to `overflow`. Nothing is lost and nothing doubled.
pub fn dispose_all(
    retired: &mut Vec<GcItem>,
    lot: &mut ParkingLot,
    producer: &mut rtrb::Producer<GcItem>,
    overflow: &mut Vec<GcItem>,
)
    ensures
        final(retired)@.len() == 0,
        all_disposed(
            old(retired)@,
            lot_view(*old(lot), *old(producer)),
            old(overflow)@,
            lot_view(*final(lot), *final(producer)),
            final(overflow)@,
        ),
        in_disposal(retired_sent(*final(producer)), final(lot).slots@, final(overflow)@)
            == in_disposal(retired_sent(*old(producer)), old(lot).slots@, old(overflow)@).add(
            old(retired)@.to_multiset(),
        ),
        final(lot).dirty == (old(lot).dirty || old(retired)@.len() > 0),
{
    let ghost all = retired@;
    let ghost a = lot_view(*lot, *producer);
    let ghost spare = overflow@;
    let mut i: usize = 0;
    while i < retired.len()
        invariant
            retired@ == all,
            0 <= i <= all.len(),
            all_disposed(
                all.subrange(0, i as int),
                a,
                spare,
                lot_view(*lot, *producer),
                overflow@,
            ),
            lot.dirty == (a.dirty || i > 0),
        decreases all.len() - i,
    {
        let item = retired[i];
        let ghost m = lot_view(*lot, *producer);
        let ghost spare_m = overflow@;
        let back = lot.retire(item, producer);
        if let Some(b) = back {
            overflow.push(b);
        }
        proof {
            let items = all.subrange(0, i + 1);
            assert(items.drop_last() =~= all.subrange(0, i as int));
            let b = lot_view(*lot, *producer);
            assert(items.last() == item);
            assert(retired_to(items.last(), m, back, b));
            assert(one_disposed(items.last(), m, spare_m, b, overflow@));
            assert(all_disposed(items.drop_last(), a, spare, m, spare_m));
            assert(all_disposed(items, a, spare, b, overflow@));
        }
        i = i + 1;
    }
    proof {
        assert(all.subrange(0, all.len() as int) =~= all);
        disposal_conserves(all, a, spare, lot_view(*lot, *producer), overflow@);
    }
    retired.clear();
}

/// Disposal neither loses nor doubles an item.
pub proof fn disposal_conserves(
    items: Seq<GcItem>,
    a: LotView,
    spare: Seq<GcItem>,
    b: LotView,
    spare_after: Seq<GcItem>,
)
    requires
        all_disposed(items, a, spare, b, spare_after),
    ensures
        in_disposal(b.sent, b.slots, spare_after) == in_disposal(a.sent, a.slots, spare).add(
            items.to_multiset(),
        ),
    decreases items.len(),
{
    broadcast use vstd::seq_lib::group_to_multiset_ensures;

    let base = in_disposal(a.sent, a.slots, spare);
    if items.len() == 0 {
        assert(items =~= Seq::<GcItem>::empty());
        assert(base.add(items.to_multiset()) =~= base);
    } else {
        let (m, spare_m) = choose|m: LotView, spare_m: Seq<GcItem>|
            all_disposed(items.drop_last(), a, spare, m, spare_m) && #[trigger] one_disposed(
                items.last(),
                m,
                spare_m,
                b,
                spare_after,
            );
        disposal_conserves(items.drop_last(), a, spare, m, spare_m);
        let item = items.last();
        let back = choose|back: Option<GcItem>| #[trigger]
            retired_to(item, m, back, b) && spare_after == match back {
                Some(x) => spare_m.push(x),
                None => spare_m,
            };
        let stop = choose|stop: int| #[trigger]
            retire_outcome(item, m.slots, m.sent, m.capacity, b.slots, b.sent, back, stop);
        retire_conserves(item, m.slots, m.sent, m.capacity, b.slots, b.sent, back, stop);
        let kept = b.sent.to_multiset().add(parked(b.slots).to_multiset());
        let given = m.sent.to_multiset().add(parked(m.slots).to_multiset()).insert(item);
        if back is Some {
            assert(spare_after.to_multiset() =~= spare_m.to_multiset().insert(item));
            assert(kept.insert(item).add(spare_m.to_multiset()) =~= kept.add(
                spare_after.to_multiset(),
            ));
        }
        let before = in_disposal(m.sent, m.slots, spare_m);
        assert(given.add(spare_m.to_multiset()) =~= before.insert(item));
        assert(in_disposal(b.sent, b.slots, spare_after) =~= before.insert(item));
        assert(items =~= items.drop_last().push(item));
        assert(base.add(items.to_multiset()) =~= base.add(
            items.drop_last().to_multiset(),
        ).insert(item));
    }
}

/// A flush neither loses nor doubles an item on its way to disposal.
pub proof fn flush_keeps_disposal(a: LotView, b: LotView, spare: Seq<GcItem>)
    requires
        flushed(a, b),
    ensures
        in_disposal(b.sent, b.slots, spare) == in_disposal(a.sent, a.slots, spare),
{
    if a.dirty {
        let stop = choose|stop: int| #[trigger]
            flush_outcome(a.slots, a.sent, a.capacity, b.slots, b.sent, stop);
        flush_conserves(a.slots, a.sent, a.capacity, b.slots, b.sent, stop);
        vstd::seq_lib::lemma_multiset_commutative(a.sent, parked(a.slots));
        vstd::seq_lib::lemma_multiset_commutative(b.sent, parked(b.slots));
    }
}

/// With room in the ring for all parked items, a flush empties the lot.
pub proof fn flush_with_room_empties(a: LotView, b: LotView)
    requires
        a.dirty,
        flushed(a, b),
        a.sent.len() + parked(a.slots).len() <= a.capacity,
    ensures
        !b.dirty,
        parked(b.slots).len() == 0,
        b.sent == a.sent + parked(a.slots),
{
    let stop = choose|stop: int|
        b.dirty == (stop < a.slots.len()) && #[trigger] flush_outcome(
            a.slots,
            a.sent,
            a.capacity,
            b.slots,
            b.sent,
            stop,
        );
    parked_splits(a.slots, stop);
    if stop < a.slots.len() {
        some_slot_is_parked(b.slots, stop);
    } else {
        assert(a.slots.subrange(0, stop) =~= a.slots);
        parked_of_empty_slots(b.slots);
    }
}

/// With room in the ring for all parked items and one more, a retired item goes
/// to the ring, behind all that was parked.
pub proof fn retire_with_room_sends(item: GcItem, a: LotView, back: Option<GcItem>, b: LotView)
    requires
        retired_to(item, a, back, b),
        a.sent.len() + parked(a.slots).len() < a.capacity,
    ensures
        back is None,
        parked(b.slots).len() == 0,
        b.sent == (a.sent + parked(a.slots)).push(item),
{
    let stop = choose|stop: int| #[trigger]
        retire_outcome(item, a.slots, a.sent, a.capacity, b.slots, b.sent, back, stop);
    parked_splits(a.slots, stop);
    let mid = emptied(a.slots, stop);
    if stop < a.slots.len() {
        some_slot_is_parked(mid, stop);
    } else {
        assert(a.slots.subrange(0, stop) =~= a.slots);
        parked_of_empty_slots(mid);
    }
}

proof fn some_slot_is_parked(slots: Seq<Option<GcItem>>, k: int)
    requires
        0 <= k < slots.len(),
        slots[k] is Some,
    ensures
        parked(slots).len() > 0,
    decreases slots.len(),
{
    if k < slots.len() - 1 {
        some_slot_is_parked(slots.drop_last(), k);
    }
}

} // verus!
