//! VirtIO MMIO register layout, legacy virtqueues, and device discovery.
use vstd::prelude::*;

verus! {

pub const VIRTIO_STATUS_ACKNOWLEDGE: u32 = 1;
pub const VIRTIO_STATUS_DRIVER: u32 = 2;
pub const VIRTIO_STATUS_DRIVER_OK: u32 = 4;
pub const VIRTIO_STATUS_FEATURES_OK: u32 = 8;

/// The descriptor continues in the one named by `next`.
pub const VIRTQ_DESC_F_NEXT: u16 = 1;
/// The device writes into the descriptor's buffer.
pub const VIRTQ_DESC_F_WRITE: u16 = 2;

/// The magic value "virt" of a VirtIO MMIO slot.
pub const VIRTIO_MAGIC: u32 = 0x74726976;
/// Base address of the first VirtIO MMIO slot.
pub const VIRTIO_MMIO_BASE: usize = 0x10001000;
/// Distance between two slots.
pub const VIRTIO_MMIO_STRIDE: usize = 0x1000;
/// Number of slots.
pub const VIRTIO_MMIO_SLOTS: usize = 8;

/// The MMIO registers of a VirtIO device.
#[derive(Clone, Copy, Debug)]
pub struct VirtioMmioregs {
    pub magic: u32,
    pub version: u32,
    pub device_id: u32,
    pub vendor_id: u32,
    pub device_features: u32,
    pub device_features_sel: u32,
    pub rsvd0: [u32; 2],
    pub driver_features: u32,
    pub driver_features_sel: u32,
    pub guest_page_size: u32,
    pub rsvd1: u32,
    pub queue_sel: u32,
    pub queue_num_max: u32,
    pub queue_num: u32,
    pub queue_align: u32,
    pub queue_pfn: u32,
    pub queue_ready: u32,
    pub rsvd2: [u32; 2],
    pub queue_notify: u32,
    pub rsvd3: [u32; 3],
    pub interrupt_status: u32,
    pub interrupt_ack: u32,
    pub rsvd4: [u32; 2],
    pub status: u32,
    pub rsvd5: [u32; 3],
    pub queue_desc_lo: u32,
    pub queue_desc_hi: u32,
    pub rsvd6: [u32; 2],
    pub queue_avail_lo: u32,
    pub queue_avail_hi: u32,
    pub rsvd7: [u32; 2],
    pub queue_used_lo: u32,
    pub queue_used_hi: u32,
}

/// A descriptor of a buffer the driver offers to the device.
#[derive(Copy, Clone, Debug)]
pub struct VirtqDesc {
    pub addr: u64,
    pub len: u32,
    pub flags: u16,
    pub next: u16,
}

impl VirtqDesc {
    /// The all-zero descriptor.
    pub fn new() -> (r: Self)
        ensures
            r == (VirtqDesc { addr: 0, len: 0, flags: 0, next: 0 }),
    {
        Self { addr: 0, len: 0, flags: 0, next: 0 }
    }
}

/// The ring of descriptor heads the driver makes available.
#[derive(Copy, Clone, Debug)]
pub struct VirtqAvail {
    pub flags: u16,
    pub idx: u16,
    pub ring: [u16; 32],
}

impl VirtqAvail {
    /// An empty ring.
    pub fn new() -> (r: Self)
        ensures
            r.flags == 0,
            r.idx == 0,
            forall|i: int| 0 <= i < 32 ==> #[trigger] r.ring[i] == 0,
    {
        Self { flags: 0, idx: 0, ring: [0u16; 32] }
    }
}

/// One entry of the used ring: the head descriptor the device finished and
/// the bytes it wrote.
#[derive(Copy, Clone, Debug)]
pub struct VirtqUsedElem {
    pub id: u32,
    pub len: u32,
}

impl VirtqUsedElem {
    /// The all-zero entry.
    pub fn new() -> (r: Self)
        ensures
            r == (VirtqUsedElem { id: 0, len: 0 }),
    {
        Self { id: 0, len: 0 }
    }
}

/// The ring of descriptors the device has finished.
#[derive(Copy, Clone, Debug)]
pub struct VirtqUsed {
    pub flags: u16,
    pub idx: u16,
    pub ring: [VirtqUsedElem; 32],
}

impl VirtqUsed {
    /// An empty ring.
    pub fn new() -> (r: Self)
        ensures
            r.flags == 0,
            r.idx == 0,
            forall|i: int| 0 <= i < 32 ==> #[trigger] r.ring[i] == (VirtqUsedElem { id: 0, len: 0 }),
    {
        Self { flags: 0, idx: 0, ring: [VirtqUsedElem::new(); 32] }
    }
}

/// A legacy virtqueue of 32 descriptors laid out over two pages: the
/// descriptor table and available ring in the first, the used ring at the
/// start of the second.
#[derive(Copy, Clone, Debug)]
pub struct VirtqueueLayout {
    pub descriptors: [VirtqDesc; 32],
    pub avail: VirtqAvail,
    pub padding: [u8; 3516],
    pub used: VirtqUsed,
    pub padding2: [u8; 3836],
}

impl VirtqueueLayout {
    /// All descriptors zero, both rings empty.
    pub fn new() -> (r: Self)
        ensures
            forall|i: int| 0 <= i < 32 ==> #[trigger] r.descriptors[i] == (VirtqDesc {
                addr: 0,
                len: 0,
                flags: 0,
                next: 0,
            }),
            r.avail.idx == 0,
            r.avail.flags == 0,
            r.used.idx == 0,
            r.used.flags == 0,
            forall|i: int| 0 <= i < 32 ==> #[trigger] r.avail.ring[i] == 0,
            forall|i: int| 0 <= i < 32 ==> #[trigger] r.used.ring[i] == (VirtqUsedElem { id: 0, len: 0 }),
            forall|i: int| 0 <= i < 3516 ==> #[trigger] r.padding[i] == 0,
            forall|i: int| 0 <= i < 3836 ==> #[trigger] r.padding2[i] == 0,
    {
        Self {
            descriptors: [VirtqDesc::new(); 32],
            avail: VirtqAvail::new(),
            padding: [0u8; 3516],
            used: VirtqUsed::new(),
            padding2: [0u8; 3836],
        }
    }
}

/// The physical address behind a kernel virtual address: the user-mode alias
/// below 0x8000_0000 lies 0x4000_0000 below the physical address.
pub open spec fn to_physical_spec(addr: usize) -> int {
    if addr < 0x8000_0000 {
        addr + 0x4000_0000
    } else {
        addr as int
    }
}

/// Executable form of `to_physical_spec`.
pub fn to_physical(addr: usize) -> (r: usize)
    ensures
        r == to_physical_spec(addr),
{
    if addr < 0x8000_0000 {
        addr + 0x4000_0000
    } else {
        addr
    }
}

/// The MMIO base address of slot `slot`.
pub open spec fn slot_base(slot: int) -> int {
    VIRTIO_MMIO_BASE + slot * VIRTIO_MMIO_STRIDE
}

/// The first slot, by the magic and device id read from each slot, that
/// holds a device with id `device_id`.
pub open spec fn first_device(ids: Seq<(u32, u32)>, device_id: u32, k: int) -> Option<int>
    decreases ids.len() - k,
{
    if k < 0 || k >= ids.len() {
        None
    } else if ids[k].0 == VIRTIO_MAGIC && ids[k].1 == device_id {
        Some(k)
    } else {
        first_device(ids, device_id, k + 1)
    }
}

/// The MMIO base of the first of the eight slots whose (magic, device id)
/// pair, as read from the slot, shows a device with id `device_id`.
pub fn find_device(ids: &[(u32, u32); 8], device_id: u32) -> (r: Option<usize>)
    ensures
        match first_device(ids@, device_id, 0) {
            Some(k) => r == Some(slot_base(k) as usize),
            None => r is None,
        },
{
    let mut slot: usize = 0;
    while slot < VIRTIO_MMIO_SLOTS
        invariant
            slot <= 8,
            ids@.len() == 8,
            first_device(ids@, device_id, 0) == first_device(ids@, device_id, slot as int),
        decreases 8 - slot,
    {
        if ids[slot].0 == VIRTIO_MAGIC && ids[slot].1 == device_id {
            return Some(VIRTIO_MMIO_BASE + slot * VIRTIO_MMIO_STRIDE);
        }
        slot = slot + 1;
    }
    None
}

impl VirtqueueLayout {
    /// Queues a two-part command: descriptor 0 holds the request (read by the
    /// device) chained to descriptor 1, which holds the response (written by
    /// the device); head 0 goes into the available ring at the ring's index,
    /// and the index advances (wrapping).  Returns the used-ring index that
    /// signals completion.
    pub fn post_command(&mut self, req_addr: usize, req_len: usize, resp_addr: usize, resp_len: usize) -> (r:
        u16)
        ensures
            final(self).descriptors[0] == (VirtqDesc {
                addr: to_physical_spec(req_addr) as u64,
                len: req_len as u32,
                flags: VIRTQ_DESC_F_NEXT,
                next: 1,
            }),
            final(self).descriptors[1] == (VirtqDesc {
                addr: to_physical_spec(resp_addr) as u64,
                len: resp_len as u32,
                flags: VIRTQ_DESC_F_WRITE,
                next: 0,
            }),
            forall|i: int| 2 <= i < 32 ==> #[trigger] final(self).descriptors[i] == old(self).descriptors[i],
            final(self).avail.ring@ == old(self).avail.ring@.update((old(self).avail.idx % 32) as int, 0),
            final(self).avail.idx == (old(self).avail.idx + 1) % 65536,
            final(self).avail.flags == old(self).avail.flags,
            final(self).used == old(self).used,
            r == final(self).avail.idx,
    {
        self.descriptors[0] = VirtqDesc {
            addr: to_physical(req_addr) as u64,
            len: req_len as u32,
            flags: VIRTQ_DESC_F_NEXT,
            next: 1,
        };
        self.descriptors[1] = VirtqDesc {
            addr: to_physical(resp_addr) as u64,
            len: resp_len as u32,
            flags: VIRTQ_DESC_F_WRITE,
            next: 0,
        };
        let slot = (self.avail.idx % 32) as usize;
        self.avail.ring[slot] = 0;
        self.avail.idx = self.avail.idx.wrapping_add(1);
        self.avail.idx
    }

    /// Offers the 32 event buffers, each `event_len` bytes, found at
    /// `events_addr` + 8 * i, to the device: descriptor i points at buffer i
    /// (device-writable), the available ring lists heads 0 to 31 and its
    /// index becomes 32.
    pub fn offer_event_buffers(&mut self, events_addr: usize, event_len: u32)
        requires
            events_addr + 32 * 8 <= 0x8000_0000 || events_addr >= 0x8000_0000,
            events_addr + 32 * 8 + 0x4000_0000 <= usize::MAX,
        ensures
            forall|i: int|
                0 <= i < 32 ==> #[trigger] final(self).descriptors[i] == (VirtqDesc {
                    addr: to_physical_spec((events_addr + i * 8) as usize) as u64,
                    len: event_len,
                    flags: VIRTQ_DESC_F_WRITE,
                    next: 0,
                }),
            forall|i: int| 0 <= i < 32 ==> #[trigger] final(self).avail.ring[i] == i,
            final(self).avail.idx == 32,
            final(self).used == old(self).used,
    {
        let mut i: usize = 0;
        while i < 32
            invariant
                i <= 32,
                events_addr + 32 * 8 + 0x4000_0000 <= usize::MAX,
                self.used == old(self).used,
                forall|k: int|
                    0 <= k < i ==> #[trigger] self.descriptors[k] == (VirtqDesc {
                        addr: to_physical_spec((events_addr + k * 8) as usize) as u64,
                        len: event_len,
                        flags: VIRTQ_DESC_F_WRITE,
                        next: 0,
                    }),
                forall|k: int| 0 <= k < i ==> #[trigger] self.avail.ring[k] == k,
            decreases 32 - i,
        {
            self.descriptors[i] = VirtqDesc {
                addr: to_physical(events_addr + i * 8) as u64,
                len: event_len,
                flags: VIRTQ_DESC_F_WRITE,
                next: 0,
            };
            self.avail.ring[i] = i as u16;
            i = i + 1;
        }
        self.avail.idx = 32;
    }
}


/// Register offsets of the VirtIO MMIO interface.
pub const REG_VERSION: usize = 0x04;
pub const REG_DRIVER_FEATURES: usize = 0x20;
pub const REG_GUEST_PAGE_SIZE: usize = 0x28;
pub const REG_QUEUE_SEL: usize = 0x30;
pub const REG_QUEUE_NUM_MAX: usize = 0x34;
pub const REG_QUEUE_NUM: usize = 0x38;
pub const REG_QUEUE_ALIGN: usize = 0x3c;
pub const REG_QUEUE_PFN: usize = 0x40;
pub const REG_QUEUE_READY: usize = 0x44;
pub const REG_QUEUE_NOTIFY: usize = 0x50;
pub const REG_INTERRUPT_STATUS: usize = 0x60;
pub const REG_INTERRUPT_ACK: usize = 0x64;
pub const REG_STATUS: usize = 0x70;
pub const REG_QUEUE_DESC_LO: usize = 0x80;
pub const REG_QUEUE_DESC_HI: usize = 0x84;
pub const REG_QUEUE_AVAIL_LO: usize = 0x90;
pub const REG_QUEUE_AVAIL_HI: usize = 0x94;
pub const REG_QUEUE_USED_LO: usize = 0xa0;
pub const REG_QUEUE_USED_HI: usize = 0xa4;

/// Why a device could not be brought up.
#[derive(Clone, Copy, PartialEq, Eq, Debug, Structural)]
pub enum SetupError {
    /// A version 2 device did not keep FEATURES_OK set.
    FeaturesRejected,
    /// Queue 0 holds fewer than 32 entries.
    QueueTooSmall,
}

/// Where the bring-up of a device stands: which register value it waits
/// for, or what is left to do.
#[derive(Clone, Copy, PartialEq, Eq, Debug, Structural)]
pub enum SetupStage {
    /// Nothing done yet.
    Start,
    /// Waiting for the version register.
    Version,
    /// Waiting for the status register after the reset.
    Status,
    /// Waiting for the status register after FEATURES_OK was set.
    Features,
    /// Waiting for the size limit of queue 0.
    QueueMax,
    /// Waiting for the caller to offer its receive buffers.
    Offer,
    /// Ready to set DRIVER_OK and notify the device.
    Activate,
    /// The device is up.
    Done,
    /// The bring-up stopped.
    Failed { error: SetupError },
}

/// What the driver must do next to bring a device up.
pub enum SetupAction {
    /// Write each (offset, value) in order, then read the register at
    /// `read` (when there is one) and hand its value to the next step.
    Access { writes: Vec<(usize, u32)>, read: Option<usize> },
    /// Fill the queue with receive buffers (`offer_event_buffers`), then
    /// step again.
    OfferBuffers,
    /// The device is up.
    Ready,
    /// The bring-up stopped with `error`.
    Failed { error: SetupError },
}

/// The register writes that tell the device where queue 0 lies: the three
/// physical addresses split in halves and the ready flag on version 2; the
/// page size, alignment and page number of the queue on legacy devices.
pub open spec fn queue_writes(version: u32, queue_pa: usize) -> Seq<(usize, u32)> {
    let desc = to_physical_spec(queue_pa) as u64;
    if version == 2 {
        let avail = to_physical_spec((queue_pa + 512) as usize) as u64;
        let used = to_physical_spec((queue_pa + 4096) as usize) as u64;
        seq![
            (REG_QUEUE_DESC_LO, desc as u32),
            (REG_QUEUE_DESC_HI, (desc >> 32u64) as u32),
            (REG_QUEUE_AVAIL_LO, avail as u32),
            (REG_QUEUE_AVAIL_HI, (avail >> 32u64) as u32),
            (REG_QUEUE_USED_LO, used as u32),
            (REG_QUEUE_USED_HI, (used >> 32u64) as u32),
            (REG_QUEUE_READY, 1u32),
        ]
    } else {
        seq![
            (REG_GUEST_PAGE_SIZE, 4096u32),
            (REG_QUEUE_ALIGN, 4096u32),
            (REG_QUEUE_PFN, (desc >> 12u64) as u32),
        ]
    }
}

fn queue_writes_exec(version: u32, queue_pa: usize) -> (r: Vec<(usize, u32)>)
    requires
        queue_pa + 8192 <= usize::MAX,
    ensures
        r@ == queue_writes(version, queue_pa),
{
    let desc = to_physical(queue_pa) as u64;
    let mut w: Vec<(usize, u32)> = Vec::new();
    if version == 2 {
        let avail = to_physical(queue_pa + 512) as u64;
        let used = to_physical(queue_pa + 4096) as u64;
        w.push((REG_QUEUE_DESC_LO, desc as u32));
        w.push((REG_QUEUE_DESC_HI, (desc >> 32) as u32));
        w.push((REG_QUEUE_AVAIL_LO, avail as u32));
        w.push((REG_QUEUE_AVAIL_HI, (avail >> 32) as u32));
        w.push((REG_QUEUE_USED_LO, used as u32));
        w.push((REG_QUEUE_USED_HI, (used >> 32) as u32));
        w.push((REG_QUEUE_READY, 1));
    } else {
        w.push((REG_GUEST_PAGE_SIZE, 4096));
        w.push((REG_QUEUE_ALIGN, 4096));
        w.push((REG_QUEUE_PFN, (desc >> 12) as u32));
    }
    assert(w@ =~= queue_writes(version, queue_pa));
    w
}

/// The status after acknowledging the device and announcing the driver.
pub open spec fn driver_status(read: u32) -> u32 {
    read | VIRTIO_STATUS_ACKNOWLEDGE | VIRTIO_STATUS_DRIVER
}

/// The action asks for `writes` in order and then a read of `read`.
pub open spec fn is_access(a: SetupAction, writes: Seq<(usize, u32)>, read: Option<usize>) -> bool {
    a matches SetupAction::Access { writes: w, read: r } && w@ == writes && r == read
}

/// The bring-up of a VirtIO MMIO device with one virtqueue at `queue_pa`
/// (the address of a `VirtqueueLayout`): reset, acknowledge, driver,
/// feature negotiation on version 2, queue 0 of 32 entries, driver OK.  A
/// device that receives into buffers the driver offers (`offers_buffers`)
/// gets them before DRIVER_OK and a notification after it.
pub struct VirtioSetup {
    pub stage: SetupStage,
    pub version: u32,
    pub status: u32,
    pub queue_pa: usize,
    pub offers_buffers: bool,
}

impl VirtioSetup {
    /// The queue's two pages lie below the top of the address space.
    pub open spec fn wf(&self) -> bool {
        self.queue_pa + 8192 <= usize::MAX
    }

    /// A bring-up that has not started.
    pub fn new(queue_pa: usize, offers_buffers: bool) -> (r: Self)
        requires
            queue_pa + 8192 <= usize::MAX,
        ensures
            r.wf(),
            r.stage == SetupStage::Start,
            r.version == 0,
            r.status == 0,
            r.queue_pa == queue_pa,
            r.offers_buffers == offers_buffers,
    {
        VirtioSetup { stage: SetupStage::Start, version: 0, status: 0, queue_pa, offers_buffers }
    }

    /// One step of the bring-up; `value` is the register the previous
    /// action asked to read (ignored when it asked for none).  Start: read
    /// the version.  Version: reset (status 0) and read the status.
    /// Status: set ACKNOWLEDGE, then DRIVER; a version 2 device then gets
    /// driver features 0 and FEATURES_OK and the status is read back; a
    /// legacy one selects queue 0 and its size limit is read.  Features:
    /// FEATURES_OK must have stayed set; then queue 0 is selected and its
    /// limit read.  QueueMax: the limit must be at least 32; the queue gets
    /// 32 entries and its address (`queue_writes`); then, for a device with
    /// receive buffers, they are offered and DRIVER_OK set with a
    /// notification; else DRIVER_OK is set at once.
    pub fn step(&mut self, value: u32) -> (r: SetupAction)
        requires
            old(self).wf(),
        ensures
            final(self).wf(),
            final(self).queue_pa == old(self).queue_pa,
            final(self).offers_buffers == old(self).offers_buffers,
            match old(self).stage {
                SetupStage::Start => {
                    &&& final(self).stage == SetupStage::Version
                    &&& final(self).version == old(self).version
                    &&& final(self).status == old(self).status
                    &&& is_access(r, Seq::empty(), Some(REG_VERSION))
                },
                SetupStage::Version => {
                    &&& final(self).stage == SetupStage::Status
                    &&& final(self).version == value
                    &&& final(self).status == old(self).status
                    &&& is_access(r, seq![(REG_STATUS, 0u32)], Some(REG_STATUS))
                },
                SetupStage::Status => {
                    let ack = value | VIRTIO_STATUS_ACKNOWLEDGE;
                    let st = driver_status(value);
                    &&& final(self).version == old(self).version
                    &&& if old(self).version == 2 {
                        &&& final(self).stage == SetupStage::Features
                        &&& final(self).status == st | VIRTIO_STATUS_FEATURES_OK
                        &&& is_access(
                            r,
                            seq![
                                (REG_STATUS, ack),
                                (REG_STATUS, st),
                                (REG_DRIVER_FEATURES, 0u32),
                                (REG_STATUS, st | VIRTIO_STATUS_FEATURES_OK),
                            ],
                            Some(REG_STATUS),
                        )
                    } else {
                        &&& final(self).stage == SetupStage::QueueMax
                        &&& final(self).status == st
                        &&& is_access(
                            r,
                            seq![(REG_STATUS, ack), (REG_STATUS, st), (REG_QUEUE_SEL, 0u32)],
                            Some(REG_QUEUE_NUM_MAX),
                        )
                    }
                },
                SetupStage::Features => {
                    &&& final(self).version == old(self).version
                    &&& final(self).status == old(self).status
                    &&& if value & VIRTIO_STATUS_FEATURES_OK == 0 {
                        &&& final(self).stage == (SetupStage::Failed { error: SetupError::FeaturesRejected })
                        &&& r matches SetupAction::Failed { error } && error == SetupError::FeaturesRejected
                    } else {
                        &&& final(self).stage == SetupStage::QueueMax
                        &&& is_access(r, seq![(REG_QUEUE_SEL, 0u32)], Some(REG_QUEUE_NUM_MAX))
                    }
                },
                SetupStage::QueueMax => {
                    let queue = seq![(REG_QUEUE_NUM, 32u32)] + queue_writes(old(self).version, old(self).queue_pa);
                    let ok = old(self).status | VIRTIO_STATUS_DRIVER_OK;
                    &&& final(self).version == old(self).version
                    &&& if value < 32 {
                        &&& final(self).status == old(self).status
                        &&& final(self).stage == (SetupStage::Failed { error: SetupError::QueueTooSmall })
                        &&& r matches SetupAction::Failed { error } && error == SetupError::QueueTooSmall
                    } else if old(self).offers_buffers {
                        &&& final(self).status == old(self).status
                        &&& final(self).stage == SetupStage::Offer
                        &&& is_access(r, queue, None)
                    } else {
                        &&& final(self).status == ok
                        &&& final(self).stage == SetupStage::Done
                        &&& is_access(r, queue + seq![(REG_STATUS, ok)], None)
                    }
                },
                SetupStage::Offer => {
                    &&& final(self).version == old(self).version
                    &&& final(self).status == old(self).status
                    &&& final(self).stage == SetupStage::Activate
                    &&& r is OfferBuffers
                },
                SetupStage::Activate => {
                    let ok = old(self).status | VIRTIO_STATUS_DRIVER_OK;
                    &&& final(self).version == old(self).version
                    &&& final(self).status == ok
                    &&& final(self).stage == SetupStage::Done
                    &&& is_access(r, seq![(REG_STATUS, ok), (REG_QUEUE_NOTIFY, 0u32)], None)
                },
                SetupStage::Done => {
                    &&& *final(self) == *old(self)
                    &&& r is Ready
                },
                SetupStage::Failed { error } => {
                    &&& *final(self) == *old(self)
                    &&& r matches SetupAction::Failed { error: e } && e == error
                },
            },
    {
        match self.stage {
            SetupStage::Start => {
                self.stage = SetupStage::Version;
                let writes: Vec<(usize, u32)> = Vec::new();
                assert(writes@ =~= Seq::<(usize, u32)>::empty());
                SetupAction::Access { writes, read: Some(REG_VERSION) }
            },
            SetupStage::Version => {
                self.version = value;
                self.stage = SetupStage::Status;
                let mut writes: Vec<(usize, u32)> = Vec::new();
                writes.push((REG_STATUS, 0));
                assert(writes@ =~= seq![(REG_STATUS, 0u32)]);
                SetupAction::Access { writes, read: Some(REG_STATUS) }
            },
            SetupStage::Status => {
                let ack = value | VIRTIO_STATUS_ACKNOWLEDGE;
                let st = ack | VIRTIO_STATUS_DRIVER;
                let mut writes: Vec<(usize, u32)> = Vec::new();
                writes.push((REG_STATUS, ack));
                writes.push((REG_STATUS, st));
                if self.version == 2 {
                    writes.push((REG_DRIVER_FEATURES, 0));
                    writes.push((REG_STATUS, st | VIRTIO_STATUS_FEATURES_OK));
                    self.status = st | VIRTIO_STATUS_FEATURES_OK;
                    self.stage = SetupStage::Features;
                    assert(writes@ =~= seq![
                        (REG_STATUS, ack),
                        (REG_STATUS, st),
                        (REG_DRIVER_FEATURES, 0u32),
                        (REG_STATUS, st | VIRTIO_STATUS_FEATURES_OK),
                    ]);
                    SetupAction::Access { writes, read: Some(REG_STATUS) }
                } else {
                    writes.push((REG_QUEUE_SEL, 0));
                    self.status = st;
                    self.stage = SetupStage::QueueMax;
                    assert(writes@ =~= seq![(REG_STATUS, ack), (REG_STATUS, st), (REG_QUEUE_SEL, 0u32)]);
                    SetupAction::Access { writes, read: Some(REG_QUEUE_NUM_MAX) }
                }
            },
            SetupStage::Features => {
                if value & VIRTIO_STATUS_FEATURES_OK == 0 {
                    self.stage = SetupStage::Failed { error: SetupError::FeaturesRejected };
                    SetupAction::Failed { error: SetupError::FeaturesRejected }
                } else {
                    self.stage = SetupStage::QueueMax;
                    let mut writes: Vec<(usize, u32)> = Vec::new();
                    writes.push((REG_QUEUE_SEL, 0));
                    assert(writes@ =~= seq![(REG_QUEUE_SEL, 0u32)]);
                    SetupAction::Access { writes, read: Some(REG_QUEUE_NUM_MAX) }
                }
            },
            SetupStage::QueueMax => {
                if value < 32 {
                    self.stage = SetupStage::Failed { error: SetupError::QueueTooSmall };
                    return SetupAction::Failed { error: SetupError::QueueTooSmall };
                }
                let mut writes: Vec<(usize, u32)> = Vec::new();
                writes.push((REG_QUEUE_NUM, 32));
                let mut q = queue_writes_exec(self.version, self.queue_pa);
                writes.append(&mut q);
                assert(writes@ =~= seq![(REG_QUEUE_NUM, 32u32)] + queue_writes(self.version, self.queue_pa));
                if self.offers_buffers {
                    self.stage = SetupStage::Offer;
                    SetupAction::Access { writes, read: None }
                } else {
                    let ok = self.status | VIRTIO_STATUS_DRIVER_OK;
                    let ghost before = writes@;
                    writes.push((REG_STATUS, ok));
                    assert(writes@ =~= before + seq![(REG_STATUS, ok)]);
                    self.status = ok;
                    self.stage = SetupStage::Done;
                    SetupAction::Access { writes, read: None }
                }
            },
            SetupStage::Offer => {
                self.stage = SetupStage::Activate;
                SetupAction::OfferBuffers
            },
            SetupStage::Activate => {
                let ok = self.status | VIRTIO_STATUS_DRIVER_OK;
                let mut writes: Vec<(usize, u32)> = Vec::new();
                writes.push((REG_STATUS, ok));
                writes.push((REG_QUEUE_NOTIFY, 0));
                assert(writes@ =~= seq![(REG_STATUS, ok), (REG_QUEUE_NOTIFY, 0u32)]);
                self.status = ok;
                self.stage = SetupStage::Done;
                SetupAction::Access { writes, read: None }
            },
            SetupStage::Done => SetupAction::Ready,
            SetupStage::Failed { error } => SetupAction::Failed { error },
        }
    }
}

} // verus!
