//! VirtIO input device (keyboard): finding the keyboard among the MMIO
//! slots, and the walk over the used ring that hands events on and gives
//! their buffers back to the device.
use vstd::prelude::*;
use crate::drivers::virtio::{VirtqueueLayout, VIRTIO_MAGIC, VIRTIO_MMIO_BASE, VIRTIO_MMIO_STRIDE, slot_base};
use crate::text::{contains, contains_bytes};

verus! {

/// One input event as the device writes it.
#[derive(Copy, Clone, Debug, Default)]
pub struct VirtioInputEvent {
    pub event_type: u16,
    pub code: u16,
    pub value: u32,
}

/// Device id of a VirtIO input device.
pub const VIRTIO_ID_INPUT: u32 = 18;

/// What a probe of one MMIO slot read: its magic and device id and, for an
/// input device, the size and first 32 bytes of the name in its
/// configuration space.
#[derive(Copy, Clone, Debug)]
pub struct InputProbe {
    pub magic: u32,
    pub device_id: u32,
    pub name_size: u8,
    pub name: [u8; 32],
}

/// "Keybo"
pub open spec fn keybo_upper() -> Seq<u8> {
    seq![75u8, 101u8, 121u8, 98u8, 111u8]
}

/// "keybo"
pub open spec fn keybo_lower() -> Seq<u8> {
    seq![107u8, 101u8, 121u8, 98u8, 111u8]
}

/// The name a probe read: the first `name_size` bytes, at most 32.
pub open spec fn probe_name(p: InputProbe) -> Seq<u8> {
    p.name@.subrange(
        0,
        if p.name_size < 32 {
            p.name_size as int
        } else {
            32
        },
    )
}

/// The probe shows a VirtIO input device whose name contains "Keybo" or
/// "keybo".
pub open spec fn is_keyboard(p: InputProbe) -> bool {
    &&& p.magic == VIRTIO_MAGIC
    &&& p.device_id == VIRTIO_ID_INPUT
    &&& (contains(probe_name(p), keybo_upper()) || contains(probe_name(p), keybo_lower()))
}

/// The first slot from `k` on whose probe shows a keyboard.
pub open spec fn first_keyboard(probes: Seq<InputProbe>, k: int) -> Option<int>
    decreases probes.len() - k,
{
    if k < 0 || k >= probes.len() {
        None
    } else if is_keyboard(probes[k]) {
        Some(k)
    } else {
        first_keyboard(probes, k + 1)
    }
}

/// Whether a probe shows a keyboard (see `is_keyboard`).
pub fn probe_is_keyboard(p: &InputProbe) -> (r: bool)
    ensures
        r == is_keyboard(*p),
{
    if p.magic != VIRTIO_MAGIC || p.device_id != VIRTIO_ID_INPUT {
        return false;
    }
    let n: usize = if p.name_size < 32 {
        p.name_size as usize
    } else {
        32
    };
    let name = vstd::slice::slice_subrange(p.name.as_slice(), 0, n);
    let upper: [u8; 5] = [75, 101, 121, 98, 111];
    let lower: [u8; 5] = [107, 101, 121, 98, 111];
    assert(upper@ =~= keybo_upper());
    assert(lower@ =~= keybo_lower());
    contains_bytes(name, upper.as_slice()) || contains_bytes(name, lower.as_slice())
}

/// The MMIO base of the first of the eight slots whose probe shows a
/// keyboard (see `is_keyboard`).
pub fn find_keyboard_device(probes: &[InputProbe; 8]) -> (r: Option<usize>)
    ensures
        match first_keyboard(probes@, 0) {
            Some(k) => r == Some(slot_base(k) as usize),
            None => r is None,
        },
{
    let mut slot: usize = 0;
    while slot < 8
        invariant
            slot <= 8,
            probes@.len() == 8,
            first_keyboard(probes@, 0) == first_keyboard(probes@, slot as int),
        decreases 8 - slot,
    {
        if probe_is_keyboard(&probes[slot]) {
            return Some(VIRTIO_MMIO_BASE + slot * VIRTIO_MMIO_STRIDE);
        }
        slot = slot + 1;
    }
    None
}

/// The number of used-ring entries between the driver's position `last`
/// and the device's index `used`, both counting modulo 2^16.
pub open spec fn pending(last: u16, used: u16) -> int {
    (used - last + 65536) % 65536
}

/// The descriptor id of the `j`-th pending used-ring entry after `last`.
pub open spec fn pending_id(q: VirtqueueLayout, last: u16, j: int) -> int {
    q.used.ring[((last + j) % 65536) % 32].id as int
}

/// The available ring after giving back descriptors `ids` in order from
/// the ring index `idx`.
#[verifier::opaque]
pub open spec fn recycle(ring: Seq<u16>, idx: int, ids: Seq<u16>) -> Seq<u16>
    decreases ids.len(),
{
    if ids.len() == 0 {
        ring
    } else {
        recycle(ring.update(idx % 32, ids[0]), (idx + 1) % 65536, ids.drop_first())
    }
}

/// Giving back the descriptor at position `i` of `ids` is one step of
/// `recycle`.
proof fn lemma_recycle_step(ring: Seq<u16>, idx: int, ids: Seq<u16>, i: int)
    requires
        0 <= i < ids.len(),
    ensures
        recycle(ring, idx, ids.subrange(i, ids.len() as int)) == recycle(
            ring.update(idx % 32, ids[i]),
            (idx + 1) % 65536,
            ids.subrange(i + 1, ids.len() as int),
        ),
{
    let rest = ids.subrange(i, ids.len() as int);
    assert(rest.drop_first() =~= ids.subrange(i + 1, ids.len() as int));
    reveal(recycle);
}

/// Puts descriptor `id` into the available ring at its index and advances
/// the index.
fn give_back(queue: &mut VirtqueueLayout, id: u16)
    ensures
        final(queue).avail.ring@ == old(queue).avail.ring@.update(old(queue).avail.idx as int % 32, id),
        final(queue).avail.idx == (old(queue).avail.idx + 1) % 65536,
        final(queue).avail.flags == old(queue).avail.flags,
        final(queue).used == old(queue).used,
        final(queue).descriptors == old(queue).descriptors,
{
    let slot = (queue.avail.idx % 32) as usize;
    queue.avail.ring[slot] = id;
    queue.avail.idx = queue.avail.idx.wrapping_add(1);
}

/// The events the device has finished since `last`, in order.
pub struct Drained {
    pub events: Vec<VirtioInputEvent>,
    /// The driver's new position in the used ring.
    pub last_used: u16,
}

/// Takes the events the device finished since `last` (up to the used
/// index `used`): entry `j` names descriptor `id`, whose event is
/// `events[id]`; each descriptor goes back into the available ring, whose
/// index advances (wrapping).  The caller acknowledges the interrupt and
/// notifies the device when any event was taken.
pub fn drain_events(queue: &mut VirtqueueLayout, events: &[VirtioInputEvent; 32], last: u16, used: u16) -> (r:
    Drained)
    requires
        forall|j: int| 0 <= j < pending(last, used) ==> pending_id(*old(queue), last, j) < 32,
    ensures
        r.last_used == used,
        r.events@.len() == pending(last, used),
        forall|j: int|
            0 <= j < pending(last, used) ==> #[trigger] r.events@[j] == events@[pending_id(
                *old(queue),
                last,
                j,
            )],
        final(queue).avail.ring@ == recycle(
            old(queue).avail.ring@,
            old(queue).avail.idx as int,
            Seq::new(pending(last, used) as nat, |j: int| pending_id(*old(queue), last, j) as u16),
        ),
        final(queue).avail.idx == (old(queue).avail.idx + pending(last, used)) % 65536,
        final(queue).avail.flags == old(queue).avail.flags,
        final(queue).used == old(queue).used,
        final(queue).descriptors == old(queue).descriptors,
{
    let ghost q0 = *queue;
    let count = used.wrapping_sub(last) as usize;
    assert(count == pending(last, used));
    let ghost ids = Seq::new(count as nat, |j: int| pending_id(q0, last, j) as u16);
    assert(ids.subrange(0, count as int) =~= ids);
    let mut out: Vec<VirtioInputEvent> = Vec::new();
    let mut cur = last;
    let mut i: usize = 0;
    while i < count
        invariant
            i <= count,
            count == pending(last, used),
            cur == (last + i) % 65536,
            ids == Seq::new(count as nat, |j: int| pending_id(q0, last, j) as u16),
            forall|j: int| 0 <= j < count ==> pending_id(q0, last, j) < 32,
            queue.used == q0.used,
            queue.descriptors == q0.descriptors,
            queue.avail.flags == q0.avail.flags,
            queue.avail.idx == (q0.avail.idx + i) % 65536,
            recycle(q0.avail.ring@, q0.avail.idx as int, ids) == recycle(
                queue.avail.ring@,
                queue.avail.idx as int,
                ids.subrange(i as int, count as int),
            ),
            out@.len() == i,
            forall|j: int| 0 <= j < i ==> #[trigger] out@[j] == events@[pending_id(q0, last, j)],
        decreases count - i,
    {
        let slot = (cur % 32) as usize;
        let id = queue.used.ring[slot].id as usize;
        assert(id == pending_id(q0, last, i as int));
        out.push(events[id]);
        proof {
            lemma_recycle_step(queue.avail.ring@, queue.avail.idx as int, ids, i as int);
            assert(ids[i as int] == id as u16);
        }
        give_back(queue, id as u16);
        cur = cur.wrapping_add(1);
        i = i + 1;
    }
    assert(ids.subrange(count as int, count as int) =~= Seq::<u16>::empty());
    proof {
        reveal(recycle);
    }
    assert(cur == used);
    Drained { events: out, last_used: cur }
}

} // verus!
