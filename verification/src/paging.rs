//! Sv39 page-table entries, a bump allocator for physical frames, and the
//! three-level page-table walk that installs 4 KiB mappings.
use vstd::prelude::*;

verus! {

/// Valid.
pub const PTE_V: u8 = 1;
/// Readable.
pub const PTE_R: u8 = 2;
/// Writable.
pub const PTE_W: u8 = 4;
/// Executable.
pub const PTE_X: u8 = 8;
/// Accessible from user mode.
pub const PTE_U: u8 = 16;
/// Global mapping.
pub const PTE_G: u8 = 32;
/// Accessed.
pub const PTE_A: u8 = 64;
/// Dirty.
pub const PTE_D: u8 = 128;

/// Mask of the 44-bit physical page number field (bits 53:10) once shifted
/// down by 10 bits.
pub const PPN_MASK: u64 = 0xFFF_FFFF_FFFF;

/// Size of a page and of a page-table frame.
pub const PAGE_SIZE: usize = 4096;

/// Number of entries in one page table.
pub const ENTRIES_PER_TABLE: usize = 512;

/// Frames handed to the page-table walk must lie below this address: above it
/// the physical page number no longer fits the entry's PPN field.
pub const FRAME_LIMIT: u64 = 0x0100_0000_0000_0000;

/// The valid bit of an entry.
pub open spec fn entry_valid(bits: u64) -> bool {
    bits & 1 != 0
}

/// The physical page number stored in an entry.
pub open spec fn entry_ppn(bits: u64) -> u64 {
    (bits >> 10) & PPN_MASK
}

/// The low eight flag bits of an entry.
pub open spec fn entry_flags(bits: u64) -> u64 {
    bits & 0xFF
}

/// The bits of an entry outside the PPN field.
pub open spec fn outside_ppn(bits: u64) -> u64 {
    bits & !(PPN_MASK << 10)
}

/// The bits of an entry outside the flag byte.
pub open spec fn outside_flags(bits: u64) -> u64 {
    bits & !0xFFu64
}

/// The entry `bits` with its PPN field replaced by the low bits of `ppn`.
pub open spec fn with_ppn(bits: u64, ppn: u64) -> u64 {
    (bits & !(PPN_MASK << 10)) | ((ppn & PPN_MASK) << 10)
}

/// The entry `bits` with its flag byte replaced by `flags`.
pub open spec fn with_flags(bits: u64, flags: u8) -> u64 {
    (bits & !0xFFu64) | (flags as u64)
}

/// The entry `bits` with its valid bit set or cleared.
pub open spec fn with_valid(bits: u64, valid: bool) -> u64 {
    if valid {
        bits | 1
    } else {
        bits & !1u64
    }
}

/// Replacing the PPN field: the new field holds the masked value, nothing
/// else changes.
pub proof fn lemma_with_ppn(bits: u64, ppn: u64)
    ensures
        entry_ppn(with_ppn(bits, ppn)) == ppn & PPN_MASK,
        outside_ppn(with_ppn(bits, ppn)) == outside_ppn(bits),
        entry_valid(with_ppn(bits, ppn)) == entry_valid(bits),
        entry_flags(with_ppn(bits, ppn)) == entry_flags(bits),
{
    let n = (bits & !(0xFFFFFFFFFFFu64 << 10)) | ((ppn & 0xFFFFFFFFFFFu64) << 10);
    assert(((n >> 10) & 0xFFFFFFFFFFFu64) == ppn & 0xFFFFFFFFFFFu64 && (n & !(
    0xFFFFFFFFFFFu64 << 10)) == bits & !(0xFFFFFFFFFFFu64 << 10) && (n & 0xFF) == bits & 0xFF
        && ((n & 1) != 0) == ((bits & 1) != 0)) by (bit_vector)
        requires
            n == (bits & !(0xFFFFFFFFFFFu64 << 10)) | ((ppn & 0xFFFFFFFFFFFu64) << 10),
    ;
}

/// Replacing the flag byte: the byte holds `flags`, nothing else changes.
pub proof fn lemma_with_flags(bits: u64, flags: u8)
    ensures
        entry_flags(with_flags(bits, flags)) == flags as u64,
        outside_flags(with_flags(bits, flags)) == outside_flags(bits),
        entry_ppn(with_flags(bits, flags)) == entry_ppn(bits),
        entry_valid(with_flags(bits, flags)) == (flags & 1 != 0),
{
    let f: u64 = flags as u64;
    let n = (bits & !0xFFu64) | f;
    assert(n & 0xFF == f && n & !0xFFu64 == bits & !0xFFu64 && ((n >> 10) & 0xFFFFFFFFFFFu64)
        == ((bits >> 10) & 0xFFFFFFFFFFFu64) && ((n & 1) != 0) == ((f & 1) != 0) && ((flags & 1
        != 0) == ((f & 1) != 0))) by (bit_vector)
        requires
            f == flags as u64,
            n == (bits & !0xFFu64) | f,
    ;
}

/// Setting or clearing the valid bit leaves every other bit alone.
pub proof fn lemma_with_valid(bits: u64, valid: bool)
    ensures
        entry_valid(with_valid(bits, valid)) == valid,
        entry_ppn(with_valid(bits, valid)) == entry_ppn(bits),
        with_valid(bits, valid) & !1u64 == bits & !1u64,
{
    assert(((bits | 1) & 1) != 0 && ((bits & !1u64) & 1) == 0 && (((bits | 1) >> 10)
        & 0xFFFFFFFFFFFu64) == ((bits >> 10) & 0xFFFFFFFFFFFu64) && (((bits & !1u64) >> 10)
        & 0xFFFFFFFFFFFu64) == ((bits >> 10) & 0xFFFFFFFFFFFu64) && (bits | 1) & !1u64 == bits
        & !1u64 && (bits & !1u64) & !1u64 == bits & !1u64) by (bit_vector);
}

/// A page-aligned address below `FRAME_LIMIT` survives the trip through the
/// PPN field: storing `addr >> 12` and reading it back gives `addr / 4096`.
pub proof fn lemma_frame_roundtrip(addr: u64)
    requires
        addr % 4096 == 0,
        addr < 0x0100_0000_0000_0000,
    ensures
        ((addr >> 12) & PPN_MASK) * 4096 == addr,
        (addr >> 12) & PPN_MASK == addr >> 12,
{
    assert(((addr >> 12) & 0xFFFFFFFFFFFu64) * 4096 == addr && (addr >> 12)
        & 0xFFFFFFFFFFFu64 == addr >> 12) by (bit_vector)
        requires
            addr % 4096 == 0,
            addr < 0x0100_0000_0000_0000u64,
    ;
}

/// An Sv39 page-table entry: valid and permission bits in 7:0, the physical
/// page number in 53:10; bits 63:54 are left as they are.
#[derive(Copy, Clone)]
pub struct PTE(u64);

impl View for PTE {
    type V = u64;

    closed spec fn view(&self) -> u64 {
        self.0
    }
}

impl PTE {
    /// The all-zero (invalid) entry.
    pub fn new() -> (r: Self)
        ensures
            r@ == 0,
    {
        PTE(0)
    }

    /// Whether the valid bit is set.
    pub fn is_valid(&self) -> (r: bool)
        ensures
            r == entry_valid(self@),
    {
        (self.0 & (PTE_V as u64)) != 0
    }

    /// Sets or clears the valid bit.
    pub fn set_valid(&mut self, valid: bool)
        ensures
            final(self)@ == with_valid(old(self)@, valid),
            entry_valid(final(self)@) == valid,
            final(self)@ & !1u64 == old(self)@ & !1u64,
    {
        proof {
            lemma_with_valid(self.0, valid);
        }
        if valid {
            self.0 = self.0 | (PTE_V as u64);
        } else {
            self.0 = self.0 & !(PTE_V as u64);
        }
    }

    /// The physical page number.
    pub fn get_ppn(&self) -> (r: usize)
        ensures
            r == entry_ppn(self@) as usize,
    {
        ((self.0 >> 10) & PPN_MASK) as usize
    }

    /// Replaces the physical page number (masked to the field's width).
    pub fn set_ppn(&mut self, ppn: usize)
        ensures
            final(self)@ == with_ppn(old(self)@, ppn as u64),
            entry_ppn(final(self)@) == (ppn as u64) & PPN_MASK,
            outside_ppn(final(self)@) == outside_ppn(old(self)@),
    {
        proof {
            lemma_with_ppn(self.0, ppn as u64);
        }
        self.0 = self.0 & !(PPN_MASK << 10);
        self.0 = self.0 | (((ppn as u64) & PPN_MASK) << 10);
    }

    /// Replaces the flag byte (bits 7:0).
    pub fn set_flags(&mut self, flags: u8)
        ensures
            final(self)@ == with_flags(old(self)@, flags),
            entry_flags(final(self)@) == flags as u64,
            outside_flags(final(self)@) == outside_flags(old(self)@),
    {
        proof {
            lemma_with_flags(self.0, flags);
        }
        self.0 = self.0 & !0xFFu64;
        self.0 = self.0 | (flags as u64);
    }

    /// The physical address of the frame this entry points to: the PPN
    /// shifted up by 12 bits.
    pub fn get_table_ptr(&self) -> (r: usize)
        ensures
            r == (entry_ppn(self@) * 4096) as usize,
    {
        let ppn: u64 = (self.0 >> 10) & PPN_MASK;
        assert(ppn <= 0xFFFFFFFFFFF) by {
            let b = self.0;
            assert((b >> 10) & 0xFFFFFFFFFFFu64 <= 0xFFFFFFFFFFFu64) by (bit_vector);
        }
        (ppn * 4096) as usize
    }
}

/// One page table: 512 entries, occupying one 4 KiB frame.
#[derive(Copy, Clone)]
pub struct PageTable {
    pub entries: [PTE; 512],
}

impl View for PageTable {
    type V = Seq<u64>;

    open spec fn view(&self) -> Seq<u64> {
        self.entries@.map_values(|e: PTE| e@)
    }
}

impl PageTable {
    /// A table whose 512 entries are all zero.
    pub fn new() -> (r: Self)
        ensures
            r@.len() == 512,
            forall|i: int| 0 <= i < 512 ==> #[trigger] r@[i] == 0,
    {
        let e = PTE::new();
        let r = PageTable { entries: [e; 512] };
        assert forall|i: int| 0 <= i < 512 implies #[trigger] r@[i] == 0 by {
            assert(r.entries@[i] == e);
        }
        r
    }
}

/// The number of whole frames a bump allocator at `current` can still hand
/// out below `end`.
pub open spec fn frames_left(current: usize, end: usize) -> nat {
    if current <= end {
        ((end - current) / 4096) as nat
    } else {
        0
    }
}

/// What `n` calls of `alloc_frame` return, in order, on an allocator whose
/// next frame is `current` and whose end is `end`: the next frame while a
/// whole frame fits below the end, `None` after.
pub open spec fn alloc_results(current: usize, end: usize, n: nat) -> Seq<Option<usize>>
    decreases n,
{
    if n == 0 {
        Seq::empty()
    } else if frames_left(current, end) > 0 {
        seq![Some(current)] + alloc_results((current + 4096) as usize, end, (n - 1) as nat)
    } else {
        seq![None] + alloc_results(current, end, (n - 1) as nat)
    }
}

/// The frames a bump allocator hands out: the `i`-th call returns
/// `current + i * 4096` while that frame ends at or below `end`, and `None`
/// from then on; so every frame is page-aligned, lies in `[current, end)`,
/// no frame is handed out twice, and a `None` is never followed by a frame.
pub proof fn law_frames_in_order(current: usize, end: usize, n: nat)
    requires
        current % 4096 == 0,
    ensures
        alloc_results(current, end, n).len() == n,
        forall|i: int|
            0 <= i < n ==> #[trigger] alloc_results(current, end, n)[i] == (if current + (i + 1) * 4096
                <= end {
                Some((current + i * 4096) as usize)
            } else {
                None
            }),
        forall|i: int, j: int|
            0 <= i < j < n && #[trigger] alloc_results(current, end, n)[i] is Some
                && #[trigger] alloc_results(current, end, n)[j] is Some ==> alloc_results(
                current,
                end,
                n,
            )[i] != alloc_results(current, end, n)[j],
        forall|i: int, j: int|
            0 <= i <= j < n && #[trigger] alloc_results(current, end, n)[i] is None
                ==> #[trigger] alloc_results(current, end, n)[j] is None,
    decreases n,
{
    if n > 0 {
        let rest = if frames_left(current, end) > 0 {
            (current + 4096) as usize
        } else {
            current
        };
        if frames_left(current, end) > 0 {
            assert(current + 4096 <= end);
        } else {
            assert(current + 4096 > end);
        }
        law_frames_in_order(rest, end, (n - 1) as nat);
        let r = alloc_results(current, end, n);
        let t = alloc_results(rest, end, (n - 1) as nat);
        assert forall|i: int| 0 <= i < n implies #[trigger] r[i] == (if current + (i + 1) * 4096 <= end {
            Some((current + i * 4096) as usize)
        } else {
            None
        }) by {
            if i > 0 {
                assert(r[i] == t[i - 1]);
            }
        }
    }
}

/// A bump allocator of physical 4 KiB frames between a start address (rounded
/// up to a page boundary) and an end address.
pub struct SimpleFrameAllocator {
    current_addr: usize,
    end_addr: usize,
}

impl SimpleFrameAllocator {
    /// The next address the allocator would hand out.
    pub closed spec fn current(&self) -> usize {
        self.current_addr
    }

    /// The address the allocator never reaches.
    pub closed spec fn end(&self) -> usize {
        self.end_addr
    }

    /// The next frame is page-aligned.
    pub closed spec fn wf(&self) -> bool {
        self.current_addr % 4096 == 0
    }

    /// An allocator that hands out the frames from `start` rounded up to a
    /// multiple of 4096, up to `end`.
    pub fn new(start: usize, end: usize) -> (r: Self)
        requires
            start + 4095 <= usize::MAX,
        ensures
            r.wf(),
            r.current() as int == (start as int + 4095) / 4096 * 4096,
            r.end() == end,
    {
        let s = start + 4095;
        let current = s & !4095usize;
        assert(s & !4095usize == s - s % 4096 && (s & !4095usize) % 4096 == 0) by (bit_vector);
        Self { current_addr: current, end_addr: end }
    }

    /// Hands out the next frame if a whole frame fits below the end address.
    pub fn alloc_frame(&mut self) -> (r: Option<usize>)
        requires
            old(self).wf(),
        ensures
            final(self).wf(),
            final(self).end() == old(self).end(),
            frames_left(old(self).current(), old(self).end()) > 0 ==> r == Some(old(self).current())
                && final(self).current() == old(self).current() + 4096,
            frames_left(old(self).current(), old(self).end()) == 0 ==> r is None && *final(self)
                == *old(self),
            r == alloc_results(old(self).current(), old(self).end(), 1)[0],
            frames_left(final(self).current(), final(self).end()) + (if r is Some {
                1nat
            } else {
                0nat
            }) == frames_left(old(self).current(), old(self).end()),
    {
        if self.current_addr <= self.end_addr && self.end_addr - self.current_addr >= 4096 {
            let addr = self.current_addr;
            self.current_addr = self.current_addr + 4096;
            Some(addr)
        } else {
            None
        }
    }
}

/// The index of the page-table entry that translates `va` at a level of the
/// walk: level 2 is the root, level 0 holds the leaves.
pub open spec fn vpn(va: usize, level: int) -> int {
    if level == 2 {
        ((va >> 30usize) & 0x1FFusize) as int
    } else if level == 1 {
        ((va >> 21usize) & 0x1FFusize) as int
    } else {
        ((va >> 12usize) & 0x1FFusize) as int
    }
}

/// Each of the three indices of an address lies in `0..512`.
pub proof fn lemma_vpn_bounds(va: usize)
    ensures
        0 <= vpn(va, 2) < 512,
        0 <= vpn(va, 1) < 512,
        0 <= vpn(va, 0) < 512,
{
    assert((va >> 30usize) & 0x1FFusize < 512 && (va >> 21usize) & 0x1FFusize < 512 && (va
        >> 12usize) & 0x1FFusize < 512) by (bit_vector);
}

/// The abstract state of page-table memory: the frame address of each table,
/// the 512 entry words of each table, the level of each table (2 for the root,
/// 0 for leaf tables) and, for each table but the root, the entry that points
/// to it.  Table 0 is the root.
pub ghost struct PtModel {
    pub frames: Seq<usize>,
    pub tables: Seq<Seq<u64>>,
    pub levels: Seq<int>,
    pub parents: Seq<(int, int)>,
}

/// The index of the first entry of `frames` equal to `addr` (any, when they
/// are distinct), or -1 when there is none.
pub open spec fn index_of_frame(frames: Seq<usize>, addr: int) -> int {
    if exists|i: int| 0 <= i < frames.len() && frames[i] as int == addr {
        choose|i: int| 0 <= i < frames.len() && frames[i] as int == addr
    } else {
        -1
    }
}

/// The index of the table held in the frame at `addr`, or -1 when no table
/// lives there.
pub open spec fn frame_index(m: PtModel, addr: int) -> int {
    index_of_frame(m.frames, addr)
}

/// The table that entry `j` of table `t` points to.
pub open spec fn child_index(m: PtModel, t: int, j: int) -> int {
    frame_index(m, entry_ppn(m.tables[t][j]) * 4096)
}

/// The leaf entry that the three-level walk from the root reaches for `va`,
/// following every valid entry of the two upper levels, or `None` where an
/// invalid entry stops the walk.
pub open spec fn walk(m: PtModel, va: usize) -> Option<u64> {
    let e2 = m.tables[0][vpn(va, 2)];
    if !entry_valid(e2) {
        None
    } else {
        let t1 = child_index(m, 0, vpn(va, 2));
        let e1 = m.tables[t1][vpn(va, 1)];
        if !entry_valid(e1) {
            None
        } else {
            let t0 = child_index(m, t1, vpn(va, 1));
            let e0 = m.tables[t0][vpn(va, 0)];
            if entry_valid(e0) {
                Some(e0)
            } else {
                None
            }
        }
    }
}

/// Sizes agree, the root has level 2 and every other table level 1 or 0.
pub open spec fn shapes_ok(m: PtModel) -> bool {
    &&& m.frames.len() >= 1
    &&& m.tables.len() == m.frames.len()
    &&& m.levels.len() == m.frames.len()
    &&& m.parents.len() == m.frames.len()
    &&& m.levels[0] == 2
    &&& forall|t: int| 0 <= t < m.tables.len() ==> (#[trigger] m.tables[t]).len() == 512
    &&& forall|t: int| 0 < t < m.levels.len() ==> 0 <= #[trigger] m.levels[t] <= 1
}

/// Frames are page-aligned, addressable by a PPN, and pairwise distinct.
pub open spec fn frames_ok(m: PtModel) -> bool {
    &&& forall|t: int|
        0 <= t < m.frames.len() ==> (#[trigger] m.frames[t]) % 4096 == 0 && (m.frames[t] as int)
            < FRAME_LIMIT
    &&& forall|t: int, u: int|
        0 <= t < m.frames.len() && 0 <= u < m.frames.len() && t != u ==> #[trigger] m.frames[t]
            != #[trigger] m.frames[u]
}

/// A valid entry of a directory table points to a table one level down whose
/// recorded parent is that entry.
pub open spec fn dir_entry_ok(m: PtModel, p: int, j: int) -> bool {
    entry_valid(m.tables[p][j]) ==> {
        let c = child_index(m, p, j);
        &&& 0 < c < m.tables.len()
        &&& m.levels[c] == m.levels[p] - 1
        &&& m.parents[c] == (p, j)
    }
}

/// The recorded parent of a non-root table is a valid directory entry that
/// points to it.
pub open spec fn parent_ok(m: PtModel, c: int) -> bool {
    let p = m.parents[c].0;
    let j = m.parents[c].1;
    &&& 0 <= p < m.tables.len()
    &&& 0 <= j < 512
    &&& m.levels[p] >= 1
    &&& entry_valid(m.tables[p][j])
    &&& child_index(m, p, j) == c
}

/// The tables form a tree under the root.
pub open spec fn links_ok(m: PtModel) -> bool {
    &&& forall|p: int, j: int|
        0 <= p < m.tables.len() && m.levels[p] >= 1 && 0 <= j < 512 ==> #[trigger] dir_entry_ok(
            m,
            p,
            j,
        )
    &&& forall|c: int| 0 < c < m.tables.len() ==> #[trigger] parent_ok(m, c)
}

/// Well-formed page-table memory.
pub open spec fn model_wf(m: PtModel) -> bool {
    &&& shapes_ok(m)
    &&& frames_ok(m)
    &&& links_ok(m)
}

/// No table lives in the frames a bump allocator between `next` and `end`
/// has yet to hand out.
pub open spec fn frames_fresh(m: PtModel, next: usize, end: usize) -> bool {
    forall|t: int| 0 <= t < m.frames.len() ==> #[trigger] m.frames[t] < next || m.frames[t] >= end
}

/// How many new tables installing a mapping for `va` needs: one for each of
/// the two directory entries on its path that are not valid yet.
pub open spec fn tables_needed(m: PtModel, va: usize) -> nat {
    if !entry_valid(m.tables[0][vpn(va, 2)]) {
        2
    } else if !entry_valid(m.tables[child_index(m, 0, vpn(va, 2))][vpn(va, 1)]) {
        1
    } else {
        0
    }
}

/// The 512 zero words of a freshly cleared table.
pub open spec fn zero_table() -> Seq<u64> {
    Seq::new(512, |j: int| 0u64)
}

/// Follows entry `j` of directory table `t`: when it is valid, to the table it
/// points to; when it is not, a table is placed in the frame at `next`, the
/// entry gets that frame's PPN and the valid bit, and the walk goes on there.
/// Returns the new memory, the next free frame and the table reached.
pub open spec fn descend(m: PtModel, next: usize, t: int, j: int) -> (PtModel, usize, int) {
    if entry_valid(m.tables[t][j]) {
        (m, next, child_index(m, t, j))
    } else {
        let e = with_valid(with_ppn(m.tables[t][j], (next >> 12usize) as u64), true);
        (
            PtModel {
                frames: m.frames.push(next),
                tables: m.tables.update(t, m.tables[t].update(j, e)).push(zero_table()),
                levels: m.levels.push(m.levels[t] - 1),
                parents: m.parents.push((t, j)),
            },
            (next + 4096) as usize,
            m.frames.len() as int,
        )
    }
}

/// The flags a leaf entry receives for the permission bits `flags`: the
/// permissions plus valid, accessed and dirty.
pub open spec fn leaf_flags(flags: u8) -> u8 {
    flags | PTE_V | PTE_A | PTE_D
}

/// Installs a 4 KiB mapping of `va` to `pa`: descends through the root and
/// the level-1 table (placing new tables in frames from `next` on where the
/// path is missing), then writes `pa`'s page number and the leaf flags into
/// the level-0 entry.  Returns the new memory and the next free frame.
pub open spec fn map_page_model(m: PtModel, next: usize, va: usize, pa: usize, flags: u8) -> (
    PtModel,
    usize,
) {
    let (m1, n1, t1) = descend(m, next, 0, vpn(va, 2));
    let (m2, n2, t0) = descend(m1, n1, t1, vpn(va, 1));
    let i0 = vpn(va, 0);
    let e = with_flags(with_ppn(m2.tables[t0][i0], (pa >> 12usize) as u64), leaf_flags(flags));
    (
        PtModel {
            frames: m2.frames,
            tables: m2.tables.update(t0, m2.tables[t0].update(i0, e)),
            levels: m2.levels,
            parents: m2.parents,
        },
        n2,
    )
}

/// Whether two addresses select the same entry at each of the three levels,
/// that is, lie in the same 4 KiB page of the 39-bit address space.
pub open spec fn same_page(va: usize, vb: usize) -> bool {
    &&& vpn(va, 2) == vpn(vb, 2)
    &&& vpn(va, 1) == vpn(vb, 1)
    &&& vpn(va, 0) == vpn(vb, 0)
}

/// With distinct frames, `frame_index` finds the one table in a frame.
pub proof fn lemma_frame_index(m: PtModel, k: int)
    requires
        frames_ok(m),
        0 <= k < m.frames.len(),
    ensures
        frame_index(m, m.frames[k] as int) == k,
{
    let a = m.frames[k] as int;
    assert(0 <= k < m.frames.len() && m.frames[k] as int == a);
    let i = choose|i: int| 0 <= i < m.frames.len() && m.frames[i] as int == a;
    assert(index_of_frame(m.frames, a) == i);
    assert(m.frames[i] == m.frames[k]);
}

/// `frame_index` is -1 or a table index whose frame is the address.
pub proof fn lemma_frame_index_range(m: PtModel, a: int)
    ensures
        frame_index(m, a) == -1 || (0 <= frame_index(m, a) < m.frames.len() && m.frames[frame_index(
            m,
            a,
        )] as int == a),
{
}

/// A child found through a valid directory entry stays the same table when
/// the frames only grow.
proof fn lemma_child_kept(m: PtModel, m1: PtModel, p: int, q: int)
    requires
        model_wf(m),
        frames_ok(m1),
        0 <= p < m.tables.len(),
        m.levels[p] >= 1,
        0 <= q < 512,
        entry_valid(m.tables[p][q]),
        m1.frames.len() >= m.frames.len(),
        forall|u: int| 0 <= u < m.frames.len() ==> m1.frames[u] == m.frames[u],
        m1.tables[p][q] == m.tables[p][q],
    ensures
        child_index(m1, p, q) == child_index(m, p, q),
{
    assert(dir_entry_ok(m, p, q));
    let c = child_index(m, p, q);
    lemma_frame_index_range(m, entry_ppn(m.tables[p][q]) * 4096);
    lemma_frame_index(m1, c);
}

/// Following or creating one directory entry keeps the memory well-formed,
/// keeps every walk as it was, and reaches a table one level down whose
/// parent is that entry.
pub proof fn lemma_descend(m: PtModel, next: usize, end: usize, t: int, j: int)
    requires
        model_wf(m),
        frames_fresh(m, next, end),
        next % 4096 == 0,
        end as int <= FRAME_LIMIT,
        0 <= t < m.tables.len(),
        m.levels[t] >= 1,
        0 <= j < 512,
        !entry_valid(m.tables[t][j]) ==> frames_left(next, end) >= 1,
    ensures
        ({
            let (m1, n1, c) = descend(m, next, t, j);
            &&& model_wf(m1)
            &&& frames_fresh(m1, n1, end)
            &&& n1 % 4096 == 0
            &&& frames_left(n1, end) + (if entry_valid(m.tables[t][j]) {
                0nat
            } else {
                1nat
            }) == frames_left(next, end)
            &&& entry_valid(m1.tables[t][j])
            &&& child_index(m1, t, j) == c
            &&& 0 < c < m1.tables.len()
            &&& m1.levels[c] == m.levels[t] - 1
            &&& m1.parents[c] == (t, j)
            &&& m1.tables.len() >= m.tables.len()
            &&& forall|u: int| 0 <= u < m.tables.len() ==> m1.levels[u] == m.levels[u]
            &&& forall|u: int| 0 <= u < m.frames.len() ==> m1.frames[u] == m.frames[u]
            &&& forall|u: int, i: int|
                0 <= u < m.tables.len() && 0 <= i < 512 && !(u == t && i == j)
                    ==> #[trigger] m1.tables[u][i] == m.tables[u][i]
            &&& forall|va: usize| walk(m1, va) == walk(m, va)
        }),
{
    let (m1, n1, c) = descend(m, next, t, j);
    if entry_valid(m.tables[t][j]) {
        assert(dir_entry_ok(m, t, j));
    } else {
        let k = m.frames.len() as int;
        let e = with_valid(with_ppn(m.tables[t][j], (next >> 12usize) as u64), true);
        lemma_with_ppn(m.tables[t][j], (next >> 12usize) as u64);
        lemma_with_valid(with_ppn(m.tables[t][j], (next >> 12usize) as u64), true);
        lemma_frame_roundtrip(next as u64);
        assert((next >> 12usize) as u64 == (next as u64) >> 12u64) by (bit_vector);
        assert(entry_ppn(e) * 4096 == next as int);
        assert(m1.tables[t][j] == e);
        // frames
        assert forall|a: int, b: int|
            0 <= a < m1.frames.len() && 0 <= b < m1.frames.len() && a != b implies #[trigger] m1.frames[a]
            != #[trigger] m1.frames[b] by {
            if a < k && b < k {
                assert(m.frames[a] != m.frames[b]);
            } else if a == k {
                assert(m.frames[b] < next || m.frames[b] >= end);
            } else {
                assert(m.frames[a] < next || m.frames[a] >= end);
            }
        }
        assert(frames_ok(m1));
        lemma_frame_index(m1, k);
        assert(child_index(m1, t, j) == k);
        assert forall|u: int| 0 <= u < m1.tables.len() implies (#[trigger] m1.tables[u]).len()
            == 512 by {
            if u < k {
                assert(m.tables[u].len() == 512);
            }
        }
        assert forall|p: int, q: int|
            0 <= p < m1.tables.len() && m1.levels[p] >= 1 && 0 <= q < 512 implies #[trigger] dir_entry_ok(
            m1,
            p,
            q,
        ) by {
            if p == k {
                assert(m1.tables[p][q] == 0u64);
                assert(!entry_valid(0u64)) by (bit_vector);
            } else if p == t && q == j {
            } else {
                assert(m1.tables[p][q] == m.tables[p][q]);
                if entry_valid(m.tables[p][q]) {
                    assert(dir_entry_ok(m, p, q));
                    lemma_child_kept(m, m1, p, q);
                }
            }
        }
        assert forall|cc: int| 0 < cc < m1.tables.len() implies #[trigger] parent_ok(m1, cc) by {
            if cc < k {
                assert(parent_ok(m, cc));
                let p = m.parents[cc].0;
                let q = m.parents[cc].1;
                assert(!(p == t && q == j));
                assert(m1.tables[p][q] == m.tables[p][q]);
                lemma_child_kept(m, m1, p, q);
            }
        }
        assert(links_ok(m1));
        assert forall|u: int| 0 <= u < m1.frames.len() implies #[trigger] m1.frames[u] < n1
            || m1.frames[u] >= end by {
            if u < k {
                assert(m.frames[u] < next || m.frames[u] >= end);
            }
        }
        assert forall|va: usize| walk(m1, va) == walk(m, va) by {
            lemma_vpn_bounds(va);
            let v2 = vpn(va, 2);
            let v1 = vpn(va, 1);
            let v0 = vpn(va, 0);
            assert(!entry_valid(0u64)) by (bit_vector);
            if t == 0 && v2 == j {
                assert(m1.tables[k][v1] == 0u64);
            } else {
                assert(m1.tables[0][v2] == m.tables[0][v2]);
                if entry_valid(m.tables[0][v2]) {
                    assert(dir_entry_ok(m, 0, v2));
                    lemma_child_kept(m, m1, 0, v2);
                    let t1 = child_index(m, 0, v2);
                    if t1 == t && v1 == j {
                        assert(m1.tables[k][v0] == 0u64);
                    } else {
                        assert(m1.tables[t1][v1] == m.tables[t1][v1]);
                        if entry_valid(m.tables[t1][v1]) {
                            assert(dir_entry_ok(m, t1, v1));
                            lemma_child_kept(m, m1, t1, v1);
                            let t0 = child_index(m, t1, v1);
                            assert(m.levels[t0] == 0);
                            assert(m1.tables[t0][v0] == m.tables[t0][v0]);
                        }
                    }
                }
            }
        }
    }
}
/// The leaf flags always include the valid bit.
pub proof fn lemma_leaf_flags_valid(flags: u8)
    ensures
        leaf_flags(flags) & 1 != 0,
        leaf_flags(flags) & PTE_A != 0,
        leaf_flags(flags) & PTE_D != 0,
        leaf_flags(flags) & flags == flags,
{
    assert((flags | 1u8 | 64u8 | 128u8) & 1 != 0 && (flags | 1u8 | 64u8 | 128u8) & 64 != 0 && (flags
        | 1u8 | 64u8 | 128u8) & 128 != 0 && (flags | 1u8 | 64u8 | 128u8) & flags == flags)
        by (bit_vector);
}

/// Installing a mapping keeps the memory well-formed and fresh with respect to
/// the allocator, uses exactly `tables_needed` frames, makes the walk of `va`
/// end at a valid leaf holding `pa`'s page number and the leaf flags, and
/// leaves the walk of every address in another page as it was.
pub proof fn lemma_map_page(m: PtModel, next: usize, end: usize, va: usize, pa: usize, flags: u8)
    requires
        model_wf(m),
        frames_fresh(m, next, end),
        next % 4096 == 0,
        end as int <= FRAME_LIMIT,
        tables_needed(m, va) <= frames_left(next, end),
    ensures
        ({
            let (m3, n3) = map_page_model(m, next, va, pa, flags);
            &&& model_wf(m3)
            &&& frames_fresh(m3, n3, end)
            &&& n3 % 4096 == 0
            &&& frames_left(n3, end) + tables_needed(m, va) == frames_left(next, end)
            &&& walk(m3, va) is Some
            &&& entry_ppn(walk(m3, va)->0) == ((pa >> 12usize) as u64) & PPN_MASK
            &&& entry_flags(walk(m3, va)->0) == leaf_flags(flags) as u64
            &&& forall|vb: usize| !same_page(va, vb) ==> walk(m3, vb) == walk(m, vb)
        }),
{
    lemma_vpn_bounds(va);
    let v2 = vpn(va, 2);
    let v1 = vpn(va, 1);
    let v0 = vpn(va, 0);
    lemma_descend(m, next, end, 0, v2);
    let (m1, n1, t1) = descend(m, next, 0, v2);
    if !entry_valid(m.tables[0][v2]) {
        assert(m1.tables[t1] == zero_table());
        assert(m1.tables[t1][v1] == 0u64);
        assert(!entry_valid(0u64)) by (bit_vector);
    } else {
        assert(m1 == m);
    }
    lemma_descend(m1, n1, end, t1, v1);
    let (m2, n2, t0) = descend(m1, n1, t1, v1);
    let (m3, n3) = map_page_model(m, next, va, pa, flags);
    let e = with_flags(with_ppn(m2.tables[t0][v0], (pa >> 12usize) as u64), leaf_flags(flags));
    lemma_with_flags(with_ppn(m2.tables[t0][v0], (pa >> 12usize) as u64), leaf_flags(flags));
    lemma_with_ppn(m2.tables[t0][v0], (pa >> 12usize) as u64);
    lemma_leaf_flags_valid(flags);
    assert(m3.tables[t0][v0] == e);
    assert(m2.levels[t0] == 0);
    assert(m2.levels[t1] == 1);
    // well-formedness of the result
    assert forall|u: int| 0 <= u < m3.tables.len() implies (#[trigger] m3.tables[u]).len()
        == 512 by {
        assert(m2.tables[u].len() == 512);
    }
    assert(forall|a: int| #[trigger] frame_index(m3, a) == frame_index(m2, a));
    assert forall|p: int, q: int|
        0 <= p < m3.tables.len() && m3.levels[p] >= 1 && 0 <= q < 512 implies #[trigger] dir_entry_ok(
        m3,
        p,
        q,
    ) by {
        assert(dir_entry_ok(m2, p, q));
        assert(p != t0);
        assert(m3.tables[p] == m2.tables[p]);
    }
    assert forall|c: int| 0 < c < m3.tables.len() implies #[trigger] parent_ok(m3, c) by {
        assert(parent_ok(m2, c));
        let p = m2.parents[c].0;
        assert(p != t0);
        assert(m3.tables[p] == m2.tables[p]);
    }
    assert(model_wf(m3));
    // the walk of va
    assert(m2.tables[0][v2] == m1.tables[0][v2]);
    lemma_child_kept(m1, m2, 0, v2);
    assert(m3.tables[0] == m2.tables[0]);
    assert(m3.tables[t1] == m2.tables[t1]);
    assert(child_index(m3, 0, v2) == t1);
    assert(child_index(m3, t1, v1) == t0);
    // walks of other pages
    assert forall|vb: usize| !same_page(va, vb) implies walk(m3, vb) == walk(m, vb) by {
        lemma_vpn_bounds(vb);
        let w2 = vpn(vb, 2);
        let w1 = vpn(vb, 1);
        let w0 = vpn(vb, 0);
        assert(walk(m2, vb) == walk(m, vb));
        assert(m3.tables[0] == m2.tables[0]);
        if entry_valid(m2.tables[0][w2]) {
            assert(dir_entry_ok(m2, 0, w2));
            let s1 = child_index(m2, 0, w2);
            assert(m2.levels[s1] == 1);
            assert(m3.tables[s1] == m2.tables[s1]);
            if entry_valid(m2.tables[s1][w1]) {
                assert(dir_entry_ok(m2, s1, w1));
                let s0 = child_index(m2, s1, w1);
                if s0 == t0 && w0 == v0 {
                    assert(m2.parents[t0] == (t1, v1));
                    assert(m2.parents[s1] == (0int, w2));
                    assert(m2.parents[t1] == (0int, v2));
                    assert(false);
                } else {
                    assert(m3.tables[s0][w0] == m2.tables[s0][w0]);
                }
            }
        }
    }
}

/// Page-table memory: the root table and every table the walk has placed in a
/// frame from the allocator, each with the physical address of its frame.
pub struct PageTableMemory {
    frames: Vec<usize>,
    tables: Vec<PageTable>,
    levels: Ghost<Seq<int>>,
    parents: Ghost<Seq<(int, int)>>,
}

impl PageTableMemory {
    /// The abstract state of the tables.
    pub closed spec fn model(&self) -> PtModel {
        PtModel {
            frames: self.frames@,
            tables: self.tables@.map_values(|t: PageTable| t@),
            levels: self.levels@,
            parents: self.parents@,
        }
    }

    /// The tables form a well-formed tree under the root.
    pub open spec fn wf(&self) -> bool {
        model_wf(self.model())
    }

    /// Memory holding one cleared root table in the frame at `root_pa`.
    pub fn new(root_pa: usize) -> (r: Self)
        requires
            root_pa % 4096 == 0,
            root_pa as int <= FRAME_LIMIT - 4096,
        ensures
            r.wf(),
            r.model().frames == seq![root_pa],
            r.model().tables == seq![zero_table()],
            forall|va: usize| walk(r.model(), va) is None,
    {
        let mut frames: Vec<usize> = Vec::new();
        frames.push(root_pa);
        let mut tables: Vec<PageTable> = Vec::new();
        let root = PageTable::new();
        tables.push(root);
        let ghost lv: Seq<int> = seq![2int];
        let ghost pr: Seq<(int, int)> = seq![(0int, 0int)];
        let r = PageTableMemory { frames, tables, levels: Ghost(lv), parents: Ghost(pr) };
        assert(r.model().tables[0] =~= zero_table());
        assert(r.model().tables =~= seq![zero_table()]);
        assert(!entry_valid(0u64)) by (bit_vector);
        assert forall|va: usize| walk(r.model(), va) is None by {
            lemma_vpn_bounds(va);
        }
        r
    }

    /// The physical address of the root table's frame.
    pub fn root_addr(&self) -> (r: usize)
        requires
            self.wf(),
        ensures
            r == self.model().frames[0],
    {
        self.frames[0]
    }

    /// The number of tables in memory, the root included.
    pub fn table_count(&self) -> (r: usize)
        ensures
            r == self.model().tables.len(),
    {
        self.tables.len()
    }

    /// Entry `j` of table `t`.
    pub fn entry(&self, t: usize, j: usize) -> (r: PTE)
        requires
            self.wf(),
            t < self.model().tables.len(),
            j < 512,
        ensures
            r@ == self.model().tables[t as int][j as int],
    {
        self.tables[t].entries[j]
    }

    /// The table held in the frame at `addr`.
    fn find_table(&self, addr: usize) -> (r: usize)
        requires
            self.wf(),
            0 <= frame_index(self.model(), addr as int),
        ensures
            r as int == frame_index(self.model(), addr as int),
            r < self.model().tables.len(),
    {
        proof {
            lemma_frame_index_range(self.model(), addr as int);
        }
        let mut i: usize = 0;
        while i < self.frames.len()
            invariant
                self.wf(),
                0 <= frame_index(self.model(), addr as int) < self.frames@.len(),
                self.model().frames[frame_index(self.model(), addr as int)] == addr,
                i <= self.frames@.len(),
                forall|u: int| 0 <= u < i ==> self.frames@[u] != addr,
            decreases self.frames@.len() - i,
        {
            if self.frames[i] == addr {
                proof {
                    lemma_frame_index(self.model(), i as int);
                }
                return i;
            }
            i = i + 1;
        }
        proof {
            let k = frame_index(self.model(), addr as int);
            assert(self.frames@[k] == addr);
        }
        0
    }

    /// The leaf entry the walk of `va` reaches, if every entry on its path is
    /// valid.
    pub fn walk(&self, va: usize) -> (r: Option<PTE>)
        requires
            self.wf(),
        ensures
            match r {
                Some(e) => walk(self.model(), va) == Some(e@),
                None => walk(self.model(), va) is None,
            },
    {
        proof {
            lemma_vpn_bounds(va);
        }
        let m = Ghost(self.model());
        let v2 = (va >> 30) & 0x1FF;
        let v1 = (va >> 21) & 0x1FF;
        let v0 = (va >> 12) & 0x1FF;
        let e2 = self.tables[0].entries[v2];
        if !e2.is_valid() {
            return None;
        }
        proof {
            assert(dir_entry_ok(m@, 0, v2 as int));
        }
        let t1 = self.find_table(e2.get_table_ptr());
        let e1 = self.tables[t1].entries[v1];
        if !e1.is_valid() {
            return None;
        }
        proof {
            assert(dir_entry_ok(m@, t1 as int, v1 as int));
        }
        let t0 = self.find_table(e1.get_table_ptr());
        let e0 = self.tables[t0].entries[v0];
        if e0.is_valid() {
            Some(e0)
        } else {
            None
        }
    }
}

impl PageTableMemory {
    /// Follows entry `j` of directory table `t`, placing a cleared table in a
    /// frame from the allocator when the entry is not valid yet.
    fn descend(&mut self, t: usize, j: usize, allocator: &mut SimpleFrameAllocator) -> (r: usize)
        requires
            old(self).wf(),
            old(allocator).wf(),
            frames_fresh(old(self).model(), old(allocator).current(), old(allocator).end()),
            old(allocator).end() as int <= FRAME_LIMIT,
            t < old(self).model().tables.len(),
            old(self).model().levels[t as int] >= 1,
            j < 512,
            !entry_valid(old(self).model().tables[t as int][j as int]) ==> frames_left(
                old(allocator).current(),
                old(allocator).end(),
            ) >= 1,
        ensures
            (final(self).model(), final(allocator).current(), r as int) == descend(
                old(self).model(),
                old(allocator).current(),
                t as int,
                j as int,
            ),
            final(allocator).end() == old(allocator).end(),
            final(allocator).wf(),
    {
        proof {
            lemma_descend(self.model(), allocator.current(), allocator.end(), t as int, j as int);
        }
        let ghost m = self.model();
        let entry = self.tables[t].entries[j];
        if entry.is_valid() {
            proof {
                assert(dir_entry_ok(m, t as int, j as int));
            }
            self.find_table(entry.get_table_ptr())
        } else {
            let new_pa = match allocator.alloc_frame() {
                Some(a) => a,
                None => {
                    proof {
                        assert(false);
                    }
                    0
                },
            };
            let mut e = entry;
            e.set_ppn(new_pa >> 12);
            e.set_valid(true);
            let mut table = self.tables[t];
            table.entries[j] = e;
            self.tables.set(t, table);
            self.frames.push(new_pa);
            self.tables.push(PageTable::new());
            proof {
                self.levels@ = self.levels@.push(m.levels[t as int] - 1);
                self.parents@ = self.parents@.push((t as int, j as int));
            }
            let k = self.frames.len() - 1;
            proof {
                let (m1, n1, c) = descend(m, old(allocator).current(), t as int, j as int);
                assert(self.model().frames =~= m1.frames);
                assert(self.model().tables[t as int] =~= m1.tables[t as int]);
                assert(self.model().tables[k as int] =~= m1.tables[k as int]);
                assert(self.model().tables =~= m1.tables);
            }
            k
        }
    }
}

/// Maps the 4 KiB page of virtual address `va` to the physical page of `pa`
/// with the permission bits `flags` (valid, accessed and dirty are added),
/// creating the level-1 and level-0 tables on the way from frames of the
/// allocator where they are missing.
pub fn map_page(
    root: &mut PageTableMemory,
    va: usize,
    pa: usize,
    flags: u8,
    allocator: &mut SimpleFrameAllocator,
)
    requires
        old(root).wf(),
        old(allocator).wf(),
        frames_fresh(old(root).model(), old(allocator).current(), old(allocator).end()),
        old(allocator).end() as int <= FRAME_LIMIT,
        tables_needed(old(root).model(), va) <= frames_left(
            old(allocator).current(),
            old(allocator).end(),
        ),
    ensures
        (final(root).model(), final(allocator).current()) == map_page_model(
            old(root).model(),
            old(allocator).current(),
            va,
            pa,
            flags,
        ),
        final(allocator).end() == old(allocator).end(),
        final(allocator).wf(),
        final(root).wf(),
        frames_fresh(final(root).model(), final(allocator).current(), final(allocator).end()),
        frames_left(final(allocator).current(), final(allocator).end()) + tables_needed(
            old(root).model(),
            va,
        ) == frames_left(old(allocator).current(), old(allocator).end()),
        walk(final(root).model(), va) is Some,
        entry_ppn(walk(final(root).model(), va)->0) == ((pa >> 12usize) as u64) & PPN_MASK,
        entry_flags(walk(final(root).model(), va)->0) == leaf_flags(flags) as u64,
        forall|vb: usize|
            !same_page(va, vb) ==> walk(final(root).model(), vb) == walk(old(root).model(), vb),
{
    let ghost m = root.model();
    let ghost next = allocator.current();
    proof {
        lemma_map_page(m, next, allocator.end(), va, pa, flags);
        lemma_vpn_bounds(va);
        lemma_descend(m, next, allocator.end(), 0, vpn(va, 2));
    }
    let vpn2 = (va >> 30) & 0x1FF;
    let vpn1 = (va >> 21) & 0x1FF;
    let vpn0 = (va >> 12) & 0x1FF;
    let t1 = root.descend(0, vpn2, allocator);
    proof {
        let (m1, n1, c1) = descend(m, next, 0, vpn2 as int);
        if !entry_valid(m.tables[0][vpn2 as int]) {
            assert(m1.tables[c1][vpn1 as int] == 0u64);
            assert(!entry_valid(0u64)) by (bit_vector);
        }
    }
    let t0 = root.descend(t1, vpn1, allocator);
    let mut table = root.tables[t0];
    let mut entry = table.entries[vpn0];
    entry.set_ppn(pa >> 12);
    entry.set_flags(flags | PTE_V | PTE_A | PTE_D);
    table.entries[vpn0] = entry;
    root.tables.set(t0, table);
    proof {
        let (m3, n3) = map_page_model(m, next, va, pa, flags);
        assert(root.model().tables[t0 as int] =~= m3.tables[t0 as int]);
        assert(root.model().tables =~= m3.tables);
    }
}

/// The number of 4 KiB pages that cover `size` bytes.
pub open spec fn page_count(size: usize) -> nat {
    ((size as int + 4095) / 4096) as nat
}

/// The memory and next free frame after mapping `n` consecutive pages from
/// `start_va` to `start_pa`, one after the other.
pub open spec fn map_range_model(
    m: PtModel,
    next: usize,
    start_va: usize,
    start_pa: usize,
    n: nat,
    flags: u8,
) -> (PtModel, usize)
    decreases n,
{
    if n == 0 {
        (m, next)
    } else {
        let (m1, n1) = map_range_model(m, next, start_va, start_pa, (n - 1) as nat, flags);
        map_page_model(
            m1,
            n1,
            (start_va + (n - 1) * 4096) as usize,
            (start_pa + (n - 1) * 4096) as usize,
            flags,
        )
    }
}

/// Whether the frames below `end` suffice for every table that mapping `n`
/// consecutive pages creates.
pub open spec fn map_range_fits(
    m: PtModel,
    next: usize,
    end: usize,
    start_va: usize,
    start_pa: usize,
    n: nat,
    flags: u8,
) -> bool
    decreases n,
{
    if n == 0 {
        true
    } else {
        let (m1, n1) = map_range_model(m, next, start_va, start_pa, (n - 1) as nat, flags);
        &&& map_range_fits(m, next, end, start_va, start_pa, (n - 1) as nat, flags)
        &&& tables_needed(m1, (start_va + (n - 1) * 4096) as usize) <= frames_left(n1, end)
    }
}

/// Mapping a range that fits keeps the memory well-formed and fresh.
pub proof fn lemma_map_range(
    m: PtModel,
    next: usize,
    end: usize,
    start_va: usize,
    start_pa: usize,
    n: nat,
    flags: u8,
)
    requires
        model_wf(m),
        frames_fresh(m, next, end),
        next % 4096 == 0,
        end as int <= FRAME_LIMIT,
        map_range_fits(m, next, end, start_va, start_pa, n, flags),
    ensures
        ({
            let (m1, n1) = map_range_model(m, next, start_va, start_pa, n, flags);
            &&& model_wf(m1)
            &&& frames_fresh(m1, n1, end)
            &&& n1 % 4096 == 0
        }),
        forall|k: nat| k <= n ==> map_range_fits(m, next, end, start_va, start_pa, k, flags),
    decreases n,
{
    if n > 0 {
        lemma_map_range(m, next, end, start_va, start_pa, (n - 1) as nat, flags);
        let (m1, n1) = map_range_model(m, next, start_va, start_pa, (n - 1) as nat, flags);
        lemma_map_page(
            m1,
            n1,
            end,
            (start_va + (n - 1) * 4096) as usize,
            (start_pa + (n - 1) * 4096) as usize,
            flags,
        );
    }
}

/// The address of page `i` of a range starting at `start`.
pub open spec fn page_at(start: usize, i: int) -> usize {
    (start + i * 4096) as usize
}

/// Mapping a range, over the whole range: page `i` of the range walks to
/// page `i` of the physical range with the leaf flags, unless a later page
/// of the range shares its translation (Sv39 addresses 512 GiB apart
/// alias), in which case the later mapping wins; and every address whose
/// page the range does not touch walks as before.
pub proof fn law_map_range_walks(
    m: PtModel,
    next: usize,
    end: usize,
    start_va: usize,
    start_pa: usize,
    n: nat,
    flags: u8,
)
    requires
        model_wf(m),
        frames_fresh(m, next, end),
        next % 4096 == 0,
        end as int <= FRAME_LIMIT,
        map_range_fits(m, next, end, start_va, start_pa, n, flags),
    ensures
        ({
            let (m1, n1) = map_range_model(m, next, start_va, start_pa, n, flags);
            &&& forall|i: int|
                0 <= i < n && (forall|j: int|
                    i < j < n ==> !same_page(#[trigger] page_at(start_va, j), page_at(start_va, i)))
                    ==> {
                    &&& walk(m1, #[trigger] page_at(start_va, i)) is Some
                    &&& entry_ppn(walk(m1, page_at(start_va, i))->0) == ((page_at(start_pa, i)
                        >> 12usize) as u64) & PPN_MASK
                    &&& entry_flags(walk(m1, page_at(start_va, i))->0) == leaf_flags(flags) as u64
                }
            &&& forall|vb: usize|
                (forall|j: int| 0 <= j < n ==> !same_page(#[trigger] page_at(start_va, j), vb))
                    ==> #[trigger] walk(m1, vb) == walk(m, vb)
        }),
    decreases n,
{
    if n > 0 {
        let k = (n - 1) as nat;
        lemma_map_range(m, next, end, start_va, start_pa, k, flags);
        law_map_range_walks(m, next, end, start_va, start_pa, k, flags);
        let (mp, np) = map_range_model(m, next, start_va, start_pa, k, flags);
        let va = page_at(start_va, k as int);
        let pa = page_at(start_pa, k as int);
        assert(va == (start_va + (n - 1) * 4096) as usize);
        lemma_map_page(mp, np, end, va, pa, flags);
        let (m1, n1) = map_range_model(m, next, start_va, start_pa, n, flags);
        assert((m1, n1) == map_page_model(mp, np, va, pa, flags));
        assert forall|i: int|
            0 <= i < n && (forall|j: int|
                i < j < n ==> !same_page(#[trigger] page_at(start_va, j), page_at(start_va, i)))
                implies {
                &&& walk(m1, #[trigger] page_at(start_va, i)) is Some
                &&& entry_ppn(walk(m1, page_at(start_va, i))->0) == ((page_at(start_pa, i) >> 12usize)
                    as u64) & PPN_MASK
                &&& entry_flags(walk(m1, page_at(start_va, i))->0) == leaf_flags(flags) as u64
            } by {
            if i < k {
                assert(!same_page(page_at(start_va, k as int), page_at(start_va, i)));
                assert(forall|j: int|
                    i < j < k ==> !same_page(#[trigger] page_at(start_va, j), page_at(start_va, i)));
            }
        }
        assert forall|vb: usize|
            (forall|j: int| 0 <= j < n ==> !same_page(#[trigger] page_at(start_va, j), vb))
                implies #[trigger] walk(m1, vb) == walk(m, vb) by {
            assert(!same_page(page_at(start_va, k as int), vb));
            assert(forall|j: int| 0 <= j < k ==> !same_page(#[trigger] page_at(start_va, j), vb));
        }
    }
}

/// Maps `size` bytes (rounded up to whole pages) of virtual memory from
/// `start_va` to physical memory from `start_pa`, page by page.
pub fn map_range(
    root: &mut PageTableMemory,
    start_va: usize,
    start_pa: usize,
    size: usize,
    flags: u8,
    allocator: &mut SimpleFrameAllocator,
)
    requires
        old(root).wf(),
        old(allocator).wf(),
        frames_fresh(old(root).model(), old(allocator).current(), old(allocator).end()),
        old(allocator).end() as int <= FRAME_LIMIT,
        page_count(size) > 0 ==> start_va + (page_count(size) - 1) * 4096 <= usize::MAX,
        page_count(size) > 0 ==> start_pa + (page_count(size) - 1) * 4096 <= usize::MAX,
        map_range_fits(
            old(root).model(),
            old(allocator).current(),
            old(allocator).end(),
            start_va,
            start_pa,
            page_count(size),
            flags,
        ),
    ensures
        (final(root).model(), final(allocator).current()) == map_range_model(
            old(root).model(),
            old(allocator).current(),
            start_va,
            start_pa,
            page_count(size),
            flags,
        ),
        final(allocator).end() == old(allocator).end(),
        final(allocator).wf(),
        final(root).wf(),
        frames_fresh(final(root).model(), final(allocator).current(), final(allocator).end()),
{
    let ghost m0 = root.model();
    let ghost n0 = allocator.current();
    let ghost end = allocator.end();
    let pages = size / 4096 + if size % 4096 == 0 {
        0
    } else {
        1
    };
    assert(pages == page_count(size));
    proof {
        lemma_map_range(m0, n0, end, start_va, start_pa, pages as nat, flags);
    }
    let mut i: usize = 0;
    while i < pages
        invariant
            0 <= i <= pages,
            pages == page_count(size),
            pages > 0 ==> start_va + (pages - 1) * 4096 <= usize::MAX,
            pages > 0 ==> start_pa + (pages - 1) * 4096 <= usize::MAX,
            (root.model(), allocator.current()) == map_range_model(
                m0,
                n0,
                start_va,
                start_pa,
                i as nat,
                flags,
            ),
            root.wf(),
            allocator.wf(),
            allocator.end() == end,
            end as int <= FRAME_LIMIT,
            frames_fresh(root.model(), allocator.current(), end),
            forall|k: nat| k <= pages ==> map_range_fits(m0, n0, end, start_va, start_pa, k, flags),
        decreases pages - i,
    {
        assert(i * 4096 <= (pages - 1) * 4096) by (nonlinear_arith)
            requires
                i < pages,
        ;
        assert(map_range_fits(m0, n0, end, start_va, start_pa, (i + 1) as nat, flags));
        map_page(root, start_va + i * 4096, start_pa + i * 4096, flags, allocator);
        i = i + 1;
    }
}


/// The 2 MiB block an address lies in: the span one leaf table covers.
pub open spec fn block_of(va: usize) -> int {
    (va >> 21usize) as int
}

/// The number of 2 MiB blocks that `n` consecutive pages from `start_va`
/// touch.
pub open spec fn blocks_touched(start_va: usize, n: nat) -> int {
    if n == 0 {
        0
    } else {
        block_of((start_va + (n - 1) * 4096) as usize) - block_of(start_va) + 1
    }
}

/// The next page lies in the same block or the one after.
proof fn lemma_block_step(x: usize)
    requires
        x + 4096 <= usize::MAX,
    ensures
        block_of((x + 4096) as usize) == block_of(x) || block_of((x + 4096) as usize) == block_of(x)
            + 1,
{
    let y = (x + 4096) as usize;
    assert(x >> 21usize == x / 2097152usize) by (bit_vector);
    assert(y >> 21usize == y / 2097152usize) by (bit_vector);
    assert(y / 2097152 == x / 2097152 || y / 2097152 == x / 2097152 + 1) by (nonlinear_arith)
        requires
            y == x + 4096,
    ;
}

/// Two addresses of one block share the root and middle entries of their
/// walks.
proof fn lemma_same_block_same_path(a: usize, b: usize)
    requires
        block_of(a) == block_of(b),
    ensures
        vpn(a, 2) == vpn(b, 2),
        vpn(a, 1) == vpn(b, 1),
{
    assert((a >> 30usize) & 0x1FFusize == (b >> 30usize) & 0x1FFusize && (a >> 21usize) & 0x1FFusize
        == (b >> 21usize) & 0x1FFusize) by (bit_vector)
        requires
            a >> 21usize == b >> 21usize,
    ;
}

/// A range of `n` pages fits when two frames are left for each 2 MiB block
/// it touches: a page needs new tables only when it is the first of the
/// range or of a block.  Mapping it leaves at least the surplus, and the
/// last page's walk is complete.
pub proof fn lemma_map_range_budget(
    m: PtModel,
    next: usize,
    end: usize,
    start_va: usize,
    start_pa: usize,
    n: nat,
    flags: u8,
)
    requires
        model_wf(m),
        frames_fresh(m, next, end),
        next % 4096 == 0,
        end as int <= FRAME_LIMIT,
        n > 0 ==> start_va + (n - 1) * 4096 <= usize::MAX,
        2 * blocks_touched(start_va, n) <= frames_left(next, end),
    ensures
        map_range_fits(m, next, end, start_va, start_pa, n, flags),
        frames_left(map_range_model(m, next, start_va, start_pa, n, flags).1, end) + 2
            * blocks_touched(start_va, n) >= frames_left(next, end),
        n > 0 ==> walk(
            map_range_model(m, next, start_va, start_pa, n, flags).0,
            (start_va + (n - 1) * 4096) as usize,
        ) is Some,
    decreases n,
{
    if n > 0 {
        let va = (start_va + (n - 1) * 4096) as usize;
        let pa = (start_pa + (n - 1) * 4096) as usize;
        if n > 1 {
            let prev = (start_va + (n - 2) * 4096) as usize;
            lemma_block_step(prev);
            assert(va == (prev + 4096) as usize);
            assert(blocks_touched(start_va, (n - 1) as nat) <= blocks_touched(start_va, n));
        }
        lemma_map_range_budget(m, next, end, start_va, start_pa, (n - 1) as nat, flags);
        lemma_map_range(m, next, end, start_va, start_pa, (n - 1) as nat, flags);
        let (m1, n1) = map_range_model(m, next, start_va, start_pa, (n - 1) as nat, flags);
        if n > 1 {
            let prev = (start_va + (n - 2) * 4096) as usize;
            if block_of(va) == block_of(prev) {
                lemma_same_block_same_path(va, prev);
                assert(tables_needed(m1, va) == 0);
            } else {
                assert(tables_needed(m1, va) <= 2);
            }
        } else {
            assert(tables_needed(m1, va) <= 2);
        }
        lemma_map_page(m1, n1, end, va, pa, flags);
    }
}

impl SimpleFrameAllocator {
    /// The number of whole frames left.
    pub fn frames_remaining(&self) -> (r: usize)
        ensures
            r == frames_left(self.current(), self.end()),
    {
        if self.current_addr <= self.end_addr {
            (self.end_addr - self.current_addr) / 4096
        } else {
            0
        }
    }
}

/// Whether `map_range` can map `size` bytes from `start_va` to `start_pa`
/// with the frames left: the last page's addresses must not overflow and
/// two frames must remain for each 2 MiB block the range touches.  A `true`
/// answer meets `map_range`'s condition on the frames.
pub fn range_fits(
    root: &PageTableMemory,
    start_va: usize,
    start_pa: usize,
    size: usize,
    flags: u8,
    allocator: &SimpleFrameAllocator,
) -> (r: bool)
    requires
        root.wf(),
        allocator.wf(),
        frames_fresh(root.model(), allocator.current(), allocator.end()),
        allocator.end() as int <= FRAME_LIMIT,
    ensures
        r == ((page_count(size) > 0 ==> start_va + (page_count(size) - 1) * 4096 <= usize::MAX
            && start_pa + (page_count(size) - 1) * 4096 <= usize::MAX) && 2 * blocks_touched(
            start_va,
            page_count(size),
        ) <= frames_left(allocator.current(), allocator.end())),
        r ==> map_range_fits(
            root.model(),
            allocator.current(),
            allocator.end(),
            start_va,
            start_pa,
            page_count(size),
            flags,
        ),
{
    let pages: usize = size / 4096 + if size % 4096 == 0 {
        0
    } else {
        1
    };
    assert(pages == page_count(size));
    let left = allocator.frames_remaining();
    if pages == 0 {
        return true;
    }
    let span = (pages - 1) as u128 * 4096;
    if start_va as u128 + span > usize::MAX as u128 || start_pa as u128 + span > usize::MAX as u128 {
        return false;
    }
    let last = start_va + (pages - 1) * 4096;
    assert(last >> 21usize == last / 2097152usize) by (bit_vector);
    assert(start_va >> 21usize == start_va / 2097152usize) by (bit_vector);
    assert(last / 2097152 >= start_va / 2097152) by (nonlinear_arith)
        requires
            last >= start_va,
    ;
    let blocks = last / 2097152 - start_va / 2097152 + 1;
    if left / 2 < blocks {
        return false;
    }
    proof {
        lemma_map_range_budget(
            root.model(),
            allocator.current(),
            allocator.end(),
            start_va,
            start_pa,
            page_count(size),
            flags,
        );
    }
    true
}

/// One mapping the kernel installs at boot: `size` bytes from `va` to `pa`
/// with permissions `flags`.
#[derive(Clone, Copy, PartialEq, Eq, Debug, Structural)]
pub struct MapRegion {
    pub va: usize,
    pub pa: usize,
    pub size: usize,
    pub flags: u8,
}

/// Where the linker placed the kernel's sections.
#[derive(Clone, Copy, Debug)]
pub struct KernelLayout {
    pub stext: usize,
    pub etext: usize,
    pub srodata: usize,
    pub erodata: usize,
    pub sdata: usize,
    pub ekernel: usize,
}

/// End of the physical RAM the kernel maps.
pub const RAM_END: usize = 0x8800_0000;

/// Distance between a kernel address and its user-mode alias.
pub const USER_ALIAS_OFFSET: usize = 0x4000_0000;

/// The sections lie in order above the user alias offset and below the end
/// of RAM.
pub open spec fn layout_ok(l: KernelLayout) -> bool {
    &&& USER_ALIAS_OFFSET <= l.stext <= l.etext
    &&& USER_ALIAS_OFFSET <= l.srodata <= l.erodata
    &&& USER_ALIAS_OFFSET <= l.sdata <= RAM_END
}

/// The boot mappings, in the order they are installed: the UART (RW), the
/// VirtIO MMIO slots (RW, user), the firmware (RX); the kernel text (RX);
/// the user-mode aliases, 0x4000_0000 lower, of the firmware (RX), the text
/// (RX), the read-only data (R) and the data and the rest of RAM (RW); then
/// the read-only data (R, user) and the data and rest of RAM (RW, user) at
/// their own addresses.
pub open spec fn kernel_regions_spec(l: KernelLayout) -> Seq<MapRegion> {
    let text = (l.etext - l.stext) as usize;
    let rodata = (l.erodata - l.srodata) as usize;
    let data = (RAM_END - l.sdata) as usize;
    seq![
        MapRegion { va: 0x1000_0000, pa: 0x1000_0000, size: 4096, flags: PTE_R | PTE_W },
        MapRegion { va: 0x1000_1000, pa: 0x1000_1000, size: 0x8000, flags: PTE_R | PTE_W | PTE_U },
        MapRegion { va: 0x8000_0000, pa: 0x8000_0000, size: 0x200000, flags: PTE_R | PTE_X },
        MapRegion { va: l.stext, pa: l.stext, size: text, flags: PTE_R | PTE_X },
        MapRegion { va: 0x4000_0000, pa: 0x8000_0000, size: 0x200000, flags: PTE_R | PTE_X | PTE_U },
        MapRegion {
            va: (l.stext - USER_ALIAS_OFFSET) as usize,
            pa: l.stext,
            size: text,
            flags: PTE_R | PTE_X | PTE_U,
        },
        MapRegion {
            va: (l.srodata - USER_ALIAS_OFFSET) as usize,
            pa: l.srodata,
            size: rodata,
            flags: PTE_R | PTE_U,
        },
        MapRegion {
            va: (l.sdata - USER_ALIAS_OFFSET) as usize,
            pa: l.sdata,
            size: data,
            flags: PTE_R | PTE_W | PTE_U,
        },
        MapRegion { va: l.srodata, pa: l.srodata, size: rodata, flags: PTE_R | PTE_U },
        MapRegion { va: l.sdata, pa: l.sdata, size: data, flags: PTE_R | PTE_W | PTE_U },
    ]
}

/// The kernel's sections lie after the firmware and in order: text (not
/// empty), read-only data, then data and the rest of RAM.
pub open spec fn sections_in_order(l: KernelLayout) -> bool {
    &&& 0x8020_0000 <= l.stext < l.etext <= l.srodata <= l.erodata <= l.sdata < RAM_END
}

/// The boot mappings protect the kernel: no region is both writable and
/// executable; a region whose frames lie in the read-only data is neither
/// writable nor executable; a region whose frames lie in the kernel text is
/// not writable.
pub proof fn law_boot_regions_protect_kernel(l: KernelLayout)
    requires
        sections_in_order(l),
    ensures
        forall|k: int|
            0 <= k < kernel_regions_spec(l).len() ==> {
                let g = #[trigger] kernel_regions_spec(l)[k];
                &&& !(g.flags & PTE_W != 0 && g.flags & PTE_X != 0)
                &&& (l.srodata <= g.pa && g.pa + g.size <= l.erodata) ==> g.flags & PTE_W == 0
                    && g.flags & PTE_X == 0
                &&& (l.stext <= g.pa && g.pa + g.size <= l.etext) ==> g.flags & PTE_W == 0
            },
{
    assert((2u8 | 4u8) & 4u8 != 0 && (2u8 | 4u8) & 8u8 == 0) by (bit_vector);
    assert(((2u8 | 4u8) | 16u8) & 4u8 != 0 && ((2u8 | 4u8) | 16u8) & 8u8 == 0) by (bit_vector);
    assert((2u8 | 8u8) & 4u8 == 0 && (2u8 | 8u8) & 8u8 != 0) by (bit_vector);
    assert(((2u8 | 8u8) | 16u8) & 4u8 == 0 && ((2u8 | 8u8) | 16u8) & 8u8 != 0) by (bit_vector);
    assert((2u8 | 16u8) & 4u8 == 0 && (2u8 | 16u8) & 8u8 == 0) by (bit_vector);
    let r = kernel_regions_spec(l);
    assert(r.len() == 10);
}

/// The boot mappings (see `kernel_regions_spec`).
pub fn kernel_regions(l: &KernelLayout) -> (r: Vec<MapRegion>)
    requires
        layout_ok(*l),
    ensures
        r@ == kernel_regions_spec(*l),
{
    let text = l.etext - l.stext;
    let rodata = l.erodata - l.srodata;
    let data = RAM_END - l.sdata;
    let mut r: Vec<MapRegion> = Vec::new();
    r.push(MapRegion { va: 0x1000_0000, pa: 0x1000_0000, size: 4096, flags: PTE_R | PTE_W });
    r.push(MapRegion { va: 0x1000_1000, pa: 0x1000_1000, size: 0x8000, flags: PTE_R | PTE_W | PTE_U });
    r.push(MapRegion { va: 0x8000_0000, pa: 0x8000_0000, size: 0x200000, flags: PTE_R | PTE_X });
    r.push(MapRegion { va: l.stext, pa: l.stext, size: text, flags: PTE_R | PTE_X });
    r.push(MapRegion { va: 0x4000_0000, pa: 0x8000_0000, size: 0x200000, flags: PTE_R | PTE_X | PTE_U });
    r.push(MapRegion { va: l.stext - USER_ALIAS_OFFSET, pa: l.stext, size: text, flags: PTE_R | PTE_X | PTE_U });
    r.push(MapRegion { va: l.srodata - USER_ALIAS_OFFSET, pa: l.srodata, size: rodata, flags: PTE_R | PTE_U });
    r.push(MapRegion { va: l.sdata - USER_ALIAS_OFFSET, pa: l.sdata, size: data, flags: PTE_R | PTE_W | PTE_U });
    r.push(MapRegion { va: l.srodata, pa: l.srodata, size: rodata, flags: PTE_R | PTE_U });
    r.push(MapRegion { va: l.sdata, pa: l.sdata, size: data, flags: PTE_R | PTE_W | PTE_U });
    assert(r@ =~= kernel_regions_spec(*l));
    r
}

/// The memory and next free frame after mapping `regions` one after the
/// other, each with `map_range`.
pub open spec fn map_regions_model(m: PtModel, next: usize, regions: Seq<MapRegion>) -> (
    PtModel,
    usize,
)
    decreases regions.len(),
{
    if regions.len() == 0 {
        (m, next)
    } else {
        let (m1, n1) = map_regions_model(m, next, regions.drop_last());
        let g = regions.last();
        map_range_model(m1, n1, g.va, g.pa, page_count(g.size), g.flags)
    }
}

/// The last page of region `g` has addresses that fit a machine word.
pub open spec fn region_addresses_fit(g: MapRegion) -> bool {
    page_count(g.size) > 0 ==> g.va + (page_count(g.size) - 1) * 4096 <= usize::MAX && g.pa
        + (page_count(g.size) - 1) * 4096 <= usize::MAX
}

impl PageTableMemory {
    /// How many new tables mapping `va` needs (see `tables_needed`).
    pub fn tables_needed_for(&self, va: usize) -> (r: usize)
        requires
            self.wf(),
        ensures
            r == tables_needed(self.model(), va),
    {
        proof {
            lemma_vpn_bounds(va);
        }
        let m = Ghost(self.model());
        let v2 = (va >> 30) & 0x1FF;
        let v1 = (va >> 21) & 0x1FF;
        let e2 = self.tables[0].entries[v2];
        if !e2.is_valid() {
            return 2;
        }
        proof {
            assert(dir_entry_ok(m@, 0, v2 as int));
        }
        let t1 = self.find_table(e2.get_table_ptr());
        let e1 = self.tables[t1].entries[v1];
        if !e1.is_valid() {
            1
        } else {
            0
        }
    }
}

/// Maps `regions` in order, page by page with `map_page`, as long as the
/// frames left suffice for the tables the next page needs.  Returns the
/// number of regions mapped whole and, when it stopped early, how many pages
/// of the next region were mapped: the page after them needs more tables
/// (`tables_needed`) than frames are left.
pub fn map_regions(
    root: &mut PageTableMemory,
    regions: &[MapRegion],
    allocator: &mut SimpleFrameAllocator,
) -> (r: (usize, usize))
    requires
        old(root).wf(),
        old(allocator).wf(),
        frames_fresh(old(root).model(), old(allocator).current(), old(allocator).end()),
        old(allocator).end() as int <= FRAME_LIMIT,
        forall|k: int| 0 <= k < regions.len() ==> region_addresses_fit(#[trigger] regions@[k]),
    ensures
        r.0 <= regions.len(),
        final(root).wf(),
        final(allocator).wf(),
        final(allocator).end() == old(allocator).end(),
        frames_fresh(final(root).model(), final(allocator).current(), final(allocator).end()),
        r.0 == regions.len() ==> r.1 == 0 && (final(root).model(), final(allocator).current())
            == map_regions_model(old(root).model(), old(allocator).current(), regions@),
        r.0 < regions.len() ==> {
            let g = regions@[r.0 as int];
            let (mi, ni) = map_regions_model(
                old(root).model(),
                old(allocator).current(),
                regions@.subrange(0, r.0 as int),
            );
            &&& r.1 < page_count(g.size)
            &&& (final(root).model(), final(allocator).current()) == map_range_model(
                mi,
                ni,
                g.va,
                g.pa,
                r.1 as nat,
                g.flags,
            )
            &&& tables_needed(final(root).model(), page_at(g.va, r.1 as int)) > frames_left(
                final(allocator).current(),
                final(allocator).end(),
            )
        },
{
    let ghost m0 = root.model();
    let ghost n0 = allocator.current();
    let mut i: usize = 0;
    while i < regions.len()
        invariant
            i <= regions.len(),
            root.wf(),
            allocator.wf(),
            allocator.end() == old(allocator).end(),
            allocator.end() as int <= FRAME_LIMIT,
            m0 == old(root).model(),
            n0 == old(allocator).current(),
            forall|k: int| 0 <= k < regions.len() ==> region_addresses_fit(#[trigger] regions@[k]),
            frames_fresh(root.model(), allocator.current(), allocator.end()),
            (root.model(), allocator.current()) == map_regions_model(
                m0,
                n0,
                regions@.subrange(0, i as int),
            ),
        decreases regions.len() - i,
    {
        let g = regions[i];
        assert(region_addresses_fit(regions@[i as int]));
        let pages: usize = g.size / 4096 + if g.size % 4096 == 0 {
            0
        } else {
            1
        };
        assert(pages == page_count(g.size));
        let ghost mi = root.model();
        let ghost ni = allocator.current();
        let mut k: usize = 0;
        while k < pages
            invariant
                k <= pages,
                i < regions.len(),
                g == regions@[i as int],
                m0 == old(root).model(),
                n0 == old(allocator).current(),
                (mi, ni) == map_regions_model(m0, n0, regions@.subrange(0, i as int)),
                pages == page_count(g.size),
                region_addresses_fit(g),
                root.wf(),
                allocator.wf(),
                allocator.end() == old(allocator).end(),
                allocator.end() as int <= FRAME_LIMIT,
                frames_fresh(root.model(), allocator.current(), allocator.end()),
                (root.model(), allocator.current()) == map_range_model(mi, ni, g.va, g.pa, k as nat, g.flags),
            decreases pages - k,
        {
            let va = g.va + k * 4096;
            let pa = g.pa + k * 4096;
            assert(va == page_at(g.va, k as int));
            if root.tables_needed_for(va) > allocator.frames_remaining() {
                return (i, k);
            }
            map_page(root, va, pa, g.flags, allocator);
            k = k + 1;
        }
        proof {
            let next = regions@.subrange(0, i + 1);
            assert(next.drop_last() =~= regions@.subrange(0, i as int));
            assert(next.last() == g);
        }
        i = i + 1;
    }
    assert(regions@.subrange(0, i as int) =~= regions@);
    (i, 0)
}

/// The Sv39 translation mode in the `satp` register.
pub const SATP_MODE_SV39: usize = 8;

/// The `satp` value that turns on Sv39 translation with the root table at
/// physical address `root_pa`: the mode in bits 60..64, the root's page
/// number below.
pub open spec fn satp_spec(root_pa: usize) -> u64 {
    (8u64 << 60u64) | ((root_pa as u64) >> 12u64)
}

/// The `satp` value for the root table at `root_pa` (see `satp_spec`).
pub fn satp_value(root_pa: usize) -> (r: u64)
    ensures
        r == satp_spec(root_pa),
{
    (8u64 << 60) | ((root_pa as u64) >> 12)
}

} // verus!
