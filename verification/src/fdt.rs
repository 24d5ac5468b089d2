//! Reading the flattened device tree the firmware hands the kernel: the
//! header, the walk over the structure block, and the log settings that the
//! `bootargs` property selects.
//!
//! The tree is read from a byte slice.  Every read is bounded by the slice:
//! a structure that runs past its end stops the walk as truncated.
use vstd::prelude::*;
use crate::text::{same_bytes, contains, contains_bytes};

verus! {

/// The magic number that opens a device tree blob.
pub const FDT_MAGIC: u32 = 0xd00dfeed;

/// Token opening a node, followed by its zero-terminated name.
pub const FDT_BEGIN_NODE: u32 = 1;

/// Token closing a node.
pub const FDT_END_NODE: u32 = 2;

/// Token of a property: value length, name offset, value.
pub const FDT_PROP: u32 = 3;

/// Token with no meaning.
pub const FDT_NOP: u32 = 4;

/// Token ending the structure block.
pub const FDT_END: u32 = 9;

/// The big-endian 32-bit number in `b[i..i + 4]`.
pub open spec fn be32(b: Seq<u8>, i: int) -> int {
    b[i] * 16777216 + b[i + 1] * 65536 + b[i + 2] * 256 + b[i + 3]
}

/// The big-endian 64-bit number in `b[i..i + 8]`.
pub open spec fn be64(b: Seq<u8>, i: int) -> int {
    be32(b, i) * 4294967296 + be32(b, i + 4)
}

/// Reads the big-endian 32-bit number at `i`.
pub fn read_be32(b: &[u8], i: usize) -> (r: u32)
    requires
        i + 4 <= b.len(),
    ensures
        r == be32(b@, i as int),
{
    (b[i] as u32) * 16777216 + (b[i + 1] as u32) * 65536 + (b[i + 2] as u32) * 256 + (b[i + 3] as u32)
}

/// Reads the big-endian 64-bit number at `i`.
pub fn read_be64(b: &[u8], i: usize) -> (r: u64)
    requires
        i + 8 <= b.len(),
    ensures
        r == be64(b@, i as int),
{
    let hi = read_be32(b, i) as u64;
    let lo = read_be32(b, i + 4) as u64;
    hi * 4294967296 + lo
}

/// The header of a device tree blob, its fields read in host order.
#[derive(Clone, Copy, PartialEq, Eq, Debug, Structural)]
pub struct FdtHeader {
    pub magic: u32,
    pub totalsize: u32,
    pub off_dt_struct: u32,
    pub off_dt_strings: u32,
    pub off_mem_rsvmap: u32,
    pub version: u32,
    pub last_comp_version: u32,
    pub boot_cpuid_phys: u32,
    pub size_dt_strings: u32,
    pub size_dt_struct: u32,
}

/// The header at the start of `b`: ten big-endian words.
pub open spec fn header_of(b: Seq<u8>) -> FdtHeader {
    FdtHeader {
        magic: be32(b, 0) as u32,
        totalsize: be32(b, 4) as u32,
        off_dt_struct: be32(b, 8) as u32,
        off_dt_strings: be32(b, 12) as u32,
        off_mem_rsvmap: be32(b, 16) as u32,
        version: be32(b, 20) as u32,
        last_comp_version: be32(b, 24) as u32,
        boot_cpuid_phys: be32(b, 28) as u32,
        size_dt_strings: be32(b, 32) as u32,
        size_dt_struct: be32(b, 36) as u32,
    }
}

/// `b` starts with a whole header carrying the magic number.
pub open spec fn has_header(b: Seq<u8>) -> bool {
    b.len() >= 40 && be32(b, 0) == FDT_MAGIC
}

impl FdtHeader {
    /// The header at the start of `blob`, when it is there and carries the
    /// magic number.
    pub fn from_bytes(blob: &[u8]) -> (r: Option<FdtHeader>)
        ensures
            r == (if has_header(blob@) {
                Some(header_of(blob@))
            } else {
                None
            }),
    {
        if blob.len() < 40 {
            return None;
        }
        let magic = read_be32(blob, 0);
        if magic != FDT_MAGIC {
            return None;
        }
        Some(FdtHeader {
            magic,
            totalsize: read_be32(blob, 4),
            off_dt_struct: read_be32(blob, 8),
            off_dt_strings: read_be32(blob, 12),
            off_mem_rsvmap: read_be32(blob, 16),
            version: read_be32(blob, 20),
            last_comp_version: read_be32(blob, 24),
            boot_cpuid_phys: read_be32(blob, 28),
            size_dt_strings: read_be32(blob, 32),
            size_dt_struct: read_be32(blob, 36),
        })
    }
}

/// The index of the first zero byte of `b` at or after `i`, or the length
/// of `b` when there is none.
pub open spec fn nul_from(b: Seq<u8>, i: int) -> int
    decreases b.len() - i,
{
    if i < 0 || i >= b.len() {
        b.len() as int
    } else if b[i] == 0 {
        i
    } else {
        nul_from(b, i + 1)
    }
}

/// The first zero byte at or after `i` lies between `i` and the end.
pub proof fn lemma_nul_from(b: Seq<u8>, i: int)
    requires
        0 <= i <= b.len(),
    ensures
        i <= nul_from(b, i) <= b.len(),
        nul_from(b, i) < b.len() ==> b[nul_from(b, i)] == 0,
        forall|k: int| i <= k < nul_from(b, i) ==> b[k] != 0,
    decreases b.len() - i,
{
    if i < b.len() && b[i] != 0 {
        lemma_nul_from(b, i + 1);
    }
}

/// Finds the first zero byte at or after `i` (see `nul_from`).
fn find_nul(b: &[u8], i: usize) -> (r: usize)
    requires
        i <= b@.len(),
    ensures
        r == nul_from(b@, i as int),
{
    let mut j = i;
    while j < b.len() && b[j] != 0
        invariant
            i <= j <= b@.len(),
            nul_from(b@, i as int) == nul_from(b@, j as int),
        decreases b@.len() - j,
    {
        j = j + 1;
    }
    j
}

/// How a property's value reads.
#[derive(Clone, Copy, PartialEq, Eq, Debug, Structural)]
pub enum PropValue {
    /// No bytes.
    Empty,
    /// Printable ASCII ended by a zero byte.
    Text,
    /// One big-endian 32-bit cell.
    Word { word: u32 },
    /// Two big-endian cells read as one 64-bit number.
    Double { double: u64 },
    /// Anything else.
    Binary,
}

/// The bytes `b[v..v + n]` are printable ASCII (32 to 126).
pub open spec fn printable(b: Seq<u8>, v: int, n: int) -> bool {
    forall|k: int| v <= k < v + n ==> 32 <= #[trigger] b[k] <= 126
}

/// How the `len` value bytes at `v` read: text when there are at least two
/// of them, the last is zero and the others are printable; else one cell
/// for four bytes, a 64-bit number for eight; else binary.
pub open spec fn prop_value(b: Seq<u8>, v: int, len: int) -> PropValue {
    if len == 0 {
        PropValue::Empty
    } else if len > 1 && printable(b, v, len - 1) && b[v + len - 1] == 0 {
        PropValue::Text
    } else if len == 4 {
        PropValue::Word { word: be32(b, v) as u32 }
    } else if len == 8 {
        PropValue::Double { double: be64(b, v) as u64 }
    } else {
        PropValue::Binary
    }
}

fn read_prop_value(b: &[u8], v: usize, len: usize) -> (r: PropValue)
    requires
        v + len <= b.len(),
    ensures
        r == prop_value(b@, v as int, len as int),
{
    if len == 0 {
        return PropValue::Empty;
    }
    let mut text = true;
    let mut k: usize = 0;
    while k < len - 1
        invariant
            v + len <= b.len(),
            len >= 1,
            k <= len - 1,
            text == printable(b@, v as int, k as int),
        decreases len - 1 - k,
    {
        let c = b[v + k];
        if c < 32 || c > 126 {
            text = false;
        }
        k = k + 1;
    }
    if b[v + len - 1] != 0 {
        text = false;
    }
    if text && len > 1 {
        PropValue::Text
    } else if len == 4 {
        PropValue::Word { word: read_be32(b, v) }
    } else if len == 8 {
        PropValue::Double { double: read_be64(b, v) }
    } else {
        PropValue::Binary
    }
}

/// One entry of the structure block, located by byte positions in the
/// blob, with the nesting depth it was met at.
#[derive(Clone, Copy, PartialEq, Eq, Debug, Structural)]
pub enum FdtItem {
    /// A node whose name is `blob[name_start..name_start + name_len]` (empty
    /// for the root).
    Node { depth: usize, name_start: usize, name_len: usize },
    /// A property named `blob[name_start..name_start + name_len]` in the
    /// strings block, with `value_len` value bytes at `value_start`.
    Prop {
        depth: usize,
        name_start: usize,
        name_len: usize,
        value_start: usize,
        value_len: usize,
        value: PropValue,
    },
}

/// How the walk over the structure block ended.
#[derive(Clone, Copy, PartialEq, Eq, Debug, Structural)]
pub enum FdtEnd {
    /// At the end token.
    Finished,
    /// At a token the walk does not know.
    BadToken { token: u32 },
    /// At data that runs past the end of the blob.
    Truncated,
}

/// The end of `len` bytes at `start`, rounded up to a whole 4-byte word.
pub open spec fn aligned_end(start: int, len: int) -> int {
    start + len + (4 - len % 4) % 4
}

/// `i`, or the length of `b` when `i` lies past it.
pub open spec fn clamp(b: Seq<u8>, i: int) -> int {
    if i > b.len() {
        b.len() as int
    } else {
        i
    }
}

/// The entries of the structure block from the token at `pos`, with the
/// node depth `depth` there, and how the walk ends.  Property names are
/// read at `strings` plus their offset.  A node opens one level deeper, its
/// end closes one (not below zero); a no-op token is skipped; names and
/// values are padded to whole words.
pub open spec fn walk(b: Seq<u8>, strings: int, pos: int, depth: int) -> (Seq<FdtItem>, FdtEnd)
    decreases b.len() - pos,
{
    if pos < 0 || pos + 4 > b.len() {
        (Seq::empty(), FdtEnd::Truncated)
    } else {
        let token = be32(b, pos);
        let q = pos + 4;
        if token == FDT_BEGIN_NODE {
            let nul = nul_from(b, q);
            if nul >= b.len() {
                (Seq::empty(), FdtEnd::Truncated)
            } else {
                proof {
                    lemma_nul_from(b, q);
                }
                let item = FdtItem::Node {
                    depth: depth as usize,
                    name_start: q as usize,
                    name_len: (nul - q) as usize,
                };
                let rest = walk(b, strings, clamp(b, aligned_end(q, nul - q + 1)), depth + 1);
                (seq![item] + rest.0, rest.1)
            }
        } else if token == FDT_END_NODE {
            walk(
                b,
                strings,
                q,
                if depth > 0 {
                    depth - 1
                } else {
                    0
                },
            )
        } else if token == FDT_PROP {
            if q + 8 > b.len() {
                (Seq::empty(), FdtEnd::Truncated)
            } else {
                let len = be32(b, q);
                let name = strings + be32(b, q + 4);
                let v = q + 8;
                if nul_from(b, name) >= b.len() || v + len > b.len() {
                    (Seq::empty(), FdtEnd::Truncated)
                } else {
                    let item = FdtItem::Prop {
                        depth: depth as usize,
                        name_start: name as usize,
                        name_len: (nul_from(b, name) - name) as usize,
                        value_start: v as usize,
                        value_len: len as usize,
                        value: prop_value(b, v, len),
                    };
                    let rest = walk(b, strings, clamp(b, aligned_end(v, len)), depth);
                    (seq![item] + rest.0, rest.1)
                }
            }
        } else if token == FDT_NOP {
            walk(b, strings, q, depth)
        } else if token == FDT_END {
            (Seq::empty(), FdtEnd::Finished)
        } else {
            (Seq::empty(), FdtEnd::BadToken { token: token as u32 })
        }
    }
}


/// The log settings the kernel runs with: the level (0 quiet, 1 errors, 2
/// information, 3 debug) and whether debug messages are shown.
#[derive(Clone, Copy, PartialEq, Eq, Debug, Structural)]
pub struct LogConfig {
    pub level: u8,
    pub debug: bool,
}

impl LogConfig {
    /// Quiet and without debug messages: the settings before the device
    /// tree is read.
    pub fn new() -> (r: Self)
        ensures
            r.level == 0,
            !r.debug,
    {
        LogConfig { level: 0, debug: false }
    }
}

/// "bootargs"
pub open spec fn bootargs_name() -> Seq<u8> {
    seq![98u8, 111u8, 111u8, 116u8, 97u8, 114u8, 103u8, 115u8]
}

/// "loglevel=" followed by the digit `d`.
pub open spec fn loglevel_word(d: u8) -> Seq<u8> {
    seq![108u8, 111u8, 103u8, 108u8, 101u8, 118u8, 101u8, 108u8, 61u8, (48 + d) as u8]
}

/// "quiet"
pub open spec fn quiet_word() -> Seq<u8> {
    seq![113u8, 117u8, 105u8, 101u8, 116u8]
}

/// "debug"
pub open spec fn debug_word() -> Seq<u8> {
    seq![100u8, 101u8, 98u8, 117u8, 103u8]
}

/// The settings after boot arguments `args` on top of `cfg`: "loglevel=0"
/// or "quiet" selects level 0, else "loglevel=1" level 1, else
/// "loglevel=2" level 2, else "loglevel=3" or "debug" level 3 with debug
/// messages; "debug" anywhere turns debug messages on.
pub open spec fn apply_bootargs(cfg: LogConfig, args: Seq<u8>) -> LogConfig {
    let debug = cfg.debug || contains(args, debug_word());
    if contains(args, loglevel_word(0)) || contains(args, quiet_word()) {
        LogConfig { level: 0, debug }
    } else if contains(args, loglevel_word(1)) {
        LogConfig { level: 1, debug }
    } else if contains(args, loglevel_word(2)) {
        LogConfig { level: 2, debug }
    } else if contains(args, loglevel_word(3)) || contains(args, debug_word()) {
        LogConfig { level: 3, debug: true }
    } else {
        LogConfig { level: cfg.level, debug }
    }
}

/// The boot arguments `item` carries: the text of a property named
/// "bootargs", without its final zero byte.
pub open spec fn bootargs_value(b: Seq<u8>, item: FdtItem) -> Option<Seq<u8>> {
    match item {
        FdtItem::Prop { name_start, name_len, value_start, value_len, value, .. } => {
            if value == PropValue::Text && b.subrange(name_start as int, name_start + name_len)
                == bootargs_name() {
                Some(b.subrange(value_start as int, value_start + value_len - 1))
            } else {
                None
            }
        },
        FdtItem::Node { .. } => None,
    }
}

/// The settings after the boot arguments among `items`, in order, on top
/// of `cfg`.
pub open spec fn log_after(cfg: LogConfig, b: Seq<u8>, items: Seq<FdtItem>) -> LogConfig
    decreases items.len(),
{
    if items.len() == 0 {
        cfg
    } else {
        let before = log_after(cfg, b, items.drop_last());
        match bootargs_value(b, items.last()) {
            Some(args) => apply_bootargs(before, args),
            None => before,
        }
    }
}

/// The settings after boot arguments `args` (see `apply_bootargs`).
pub fn apply_bootargs_exec(cfg: LogConfig, args: &[u8]) -> (r: LogConfig)
    ensures
        r == apply_bootargs(cfg, args@),
{
    let l0: [u8; 10] = [108, 111, 103, 108, 101, 118, 101, 108, 61, 48];
    let l1: [u8; 10] = [108, 111, 103, 108, 101, 118, 101, 108, 61, 49];
    let l2: [u8; 10] = [108, 111, 103, 108, 101, 118, 101, 108, 61, 50];
    let l3: [u8; 10] = [108, 111, 103, 108, 101, 118, 101, 108, 61, 51];
    let quiet: [u8; 5] = [113, 117, 105, 101, 116];
    let dbg: [u8; 5] = [100, 101, 98, 117, 103];
    assert(l0@ =~= loglevel_word(0));
    assert(l1@ =~= loglevel_word(1));
    assert(l2@ =~= loglevel_word(2));
    assert(l3@ =~= loglevel_word(3));
    assert(quiet@ =~= quiet_word());
    assert(dbg@ =~= debug_word());
    let has_debug = contains_bytes(args, dbg.as_slice());
    let debug = cfg.debug || has_debug;
    if contains_bytes(args, l0.as_slice()) || contains_bytes(args, quiet.as_slice()) {
        LogConfig { level: 0, debug }
    } else if contains_bytes(args, l1.as_slice()) {
        LogConfig { level: 1, debug }
    } else if contains_bytes(args, l2.as_slice()) {
        LogConfig { level: 2, debug }
    } else if contains_bytes(args, l3.as_slice()) || has_debug {
        LogConfig { level: 3, debug: true }
    } else {
        LogConfig { level: cfg.level, debug }
    }
}

/// What reading a device tree blob found: its header, the entries of its
/// structure block, how the walk ended, and the log settings its boot
/// arguments select.
pub struct FdtReport {
    pub header: FdtHeader,
    pub items: Vec<FdtItem>,
    pub end: FdtEnd,
    pub log: LogConfig,
}

/// The end of `len` bytes at `start` rounded up to a word, or `n` when that
/// lies past `n`.
fn next_word(n: usize, start: usize, len: usize) -> (r: usize)
    requires
        start + len <= n,
    ensures
        r == (if aligned_end(start as int, len as int) > n {
            n as int
        } else {
            aligned_end(start as int, len as int)
        }),
{
    let pad = (4 - len % 4) % 4;
    if pad > n - start - len {
        n
    } else {
        start + len + pad
    }
}

/// The name and value of `item` lie within the first `n` bytes, and a
/// text value holds at least one byte before its final zero.
pub open spec fn item_ok(item: FdtItem, n: int) -> bool {
    match item {
        FdtItem::Node { name_start, name_len, .. } => name_start + name_len <= n,
        FdtItem::Prop { name_start, name_len, value_start, value_len, value, .. } => {
            &&& name_start + name_len <= n
            &&& value_start + value_len <= n
            &&& value == PropValue::Text ==> value_len > 1
        },
    }
}

/// One step of the walk: the walk stops, moves on without an entry, or
/// yields an entry and moves on.
enum WalkStep {
    Stop { end: FdtEnd },
    Skip { next: usize, depth: usize },
    Emit { item: FdtItem, next: usize, depth: usize },
}

/// Reads the token at `pos` (see `walk`).
#[verifier::rlimit(30)]
fn walk_step(blob: &[u8], strings: usize, pos: usize, depth: usize) -> (r: WalkStep)
    requires
        pos <= blob.len(),
        depth <= pos,
    ensures
        match r {
            WalkStep::Stop { end } => walk(blob@, strings as int, pos as int, depth as int) == (
                Seq::<FdtItem>::empty(),
                end,
            ),
            WalkStep::Skip { next, depth: d } => {
                &&& pos < next <= blob.len()
                &&& d <= next
                &&& walk(blob@, strings as int, pos as int, depth as int) == walk(
                    blob@,
                    strings as int,
                    next as int,
                    d as int,
                )
            },
            WalkStep::Emit { item, next, depth: d } => {
                let rest = walk(blob@, strings as int, next as int, d as int);
                &&& pos < next <= blob.len()
                &&& d <= next
                &&& item_ok(item, blob.len() as int)
                &&& walk(blob@, strings as int, pos as int, depth as int) == (
                    seq![item] + rest.0,
                    rest.1,
                )
            },
        },
{
    let ghost b = blob@;
    let n = blob.len();
    if n < 4 || pos > n - 4 {
        return WalkStep::Stop { end: FdtEnd::Truncated };
    }
    let token = read_be32(blob, pos);
    let q = pos + 4;
    if token == FDT_BEGIN_NODE {
        let nul = find_nul(blob, q);
        proof {
            lemma_nul_from(b, q as int);
        }
        if nul >= n {
            return WalkStep::Stop { end: FdtEnd::Truncated };
        }
        let item = FdtItem::Node { depth, name_start: q, name_len: nul - q };
        let next = next_word(n, q, nul - q + 1);
        WalkStep::Emit { item, next, depth: depth + 1 }
    } else if token == FDT_END_NODE {
        let d = if depth > 0 {
            depth - 1
        } else {
            0
        };
        WalkStep::Skip { next: q, depth: d }
    } else if token == FDT_PROP {
        if n < 8 || q > n - 8 {
            return WalkStep::Stop { end: FdtEnd::Truncated };
        }
        let len = read_be32(blob, q) as usize;
        let off = read_be32(blob, q + 4) as usize;
        let v = q + 8;
        if strings > n || off > n - strings {
            assert(nul_from(b, strings + off) >= b.len());
            return WalkStep::Stop { end: FdtEnd::Truncated };
        }
        let name = strings + off;
        let name_end = find_nul(blob, name);
        proof {
            lemma_nul_from(b, name as int);
        }
        if name_end >= n || len > n - v {
            return WalkStep::Stop { end: FdtEnd::Truncated };
        }
        let value = read_prop_value(blob, v, len);
        let item = FdtItem::Prop {
            depth,
            name_start: name,
            name_len: name_end - name,
            value_start: v,
            value_len: len,
            value,
        };
        WalkStep::Emit { item, next: next_word(n, v, len), depth }
    } else if token == FDT_NOP {
        WalkStep::Skip { next: q, depth }
    } else if token == FDT_END {
        WalkStep::Stop { end: FdtEnd::Finished }
    } else {
        WalkStep::Stop { end: FdtEnd::BadToken { token } }
    }
}

/// The boot arguments `item` carries, as a range of `blob` (see
/// `bootargs_value`).
fn bootargs_range(blob: &[u8], item: FdtItem) -> (r: Option<(usize, usize)>)
    requires
        item_ok(item, blob.len() as int),
    ensures
        match bootargs_value(blob@, item) {
            Some(args) => r matches Some((s, e)) && s <= e <= blob.len() && blob@.subrange(
                s as int,
                e as int,
            ) == args,
            None => r is None,
        },
{
    match item {
        FdtItem::Prop { name_start, name_len, value_start, value_len, value, .. } => {
            let bootargs: [u8; 8] = [98, 111, 111, 116, 97, 114, 103, 115];
            assert(bootargs@ =~= bootargs_name());
            if value == PropValue::Text {
                let name = vstd::slice::slice_subrange(blob, name_start, name_start + name_len);
                if same_bytes(name, bootargs.as_slice()) {
                    return Some((value_start, value_start + value_len - 1));
                }
            }
            None
        },
        FdtItem::Node { .. } => None,
    }
}

/// Reads the device tree in `blob`: `None` when it does not start with a
/// header carrying the magic number; otherwise the header, the entries of
/// the structure block with how the walk ended (see `walk`), and the log
/// settings `cfg` becomes after the boot arguments found (see `log_after`).
pub fn parse_fdt(blob: &[u8], cfg: LogConfig) -> (r: Option<FdtReport>)
    ensures
        r is Some <==> has_header(blob@),
        r matches Some(rep) ==> {
            let h = header_of(blob@);
            let w = walk(blob@, h.off_dt_strings as int, h.off_dt_struct as int, 0);
            &&& rep.header == h
            &&& rep.items@ == w.0
            &&& rep.end == w.1
            &&& rep.log == log_after(cfg, blob@, w.0)
        },
{
    let header = match FdtHeader::from_bytes(blob) {
        Some(h) => h,
        None => {
            return None;
        },
    };
    let n = blob.len();
    let strings = header.off_dt_strings as usize;
    let start = header.off_dt_struct as usize;
    let ghost b = blob@;
    let ghost total = walk(b, strings as int, start as int, 0);
    let mut pos: usize = if start > n {
        n
    } else {
        start
    };
    assert(walk(b, strings as int, pos as int, 0) == total);
    let mut depth: usize = 0;
    let mut items: Vec<FdtItem> = Vec::new();
    let mut log = cfg;
    assert(items@ + walk(b, strings as int, pos as int, 0).0 =~= total.0);
    loop
        invariant
            b == blob@,
            n == blob.len(),
            header == header_of(b),
            has_header(b),
            strings == header.off_dt_strings,
            start == header.off_dt_struct,
            total == walk(b, strings as int, start as int, 0),
            pos <= n,
            depth <= pos,
            total.0 == items@ + walk(b, strings as int, pos as int, depth as int).0,
            total.1 == walk(b, strings as int, pos as int, depth as int).1,
            log == log_after(cfg, b, items@),
        decreases n - pos,
    {
        match walk_step(blob, strings, pos, depth) {
            WalkStep::Stop { end } => {
                assert(items@ =~= total.0);
                return Some(FdtReport { header, items, end, log });
            },
            WalkStep::Skip { next, depth: d } => {
                pos = next;
                depth = d;
            },
            WalkStep::Emit { item, next, depth: d } => {
                if let Some((s, e)) = bootargs_range(blob, item) {
                    log = apply_bootargs_exec(log, vstd::slice::slice_subrange(blob, s, e));
                }
                let ghost old_items = items@;
                items.push(item);
                proof {
                    let rest = walk(b, strings as int, next as int, d as int);
                    assert(items@ + rest.0 =~= old_items + (seq![item] + rest.0));
                    assert(items@.drop_last() =~= old_items);
                }
                pos = next;
                depth = d;
            },
        }
    }
}

} // verus!
